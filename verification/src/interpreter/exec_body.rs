use vstd::prelude::*;

use crate::interpreter::eval_expr::{spec_eval, spec_eval_agrees, spec_type_size, ExprEvaluator};
use crate::interpreter::registry::{spec_register, SRec, ValueRegistry};
use crate::interpreter::stack::{
    spec_bind_params, spec_bound_count, spec_locals, spec_propagate, CallFrame, JoinPointDef, ProjProvenance, SFrame,
    SJoinPoint,
};
use crate::interpreter::{
    lemma_resolve_args_err_extend, spec_resolve_arg, spec_resolve_args, InterpError, SInterpError,
};
use crate::ir_types::{
    clone_body, clone_params, model_alt, model_alts, model_body, spec_alts_wf, spec_body_wf, Alt, Arg, Expr, FnBody, IRType,
    JoinPointId, Param, SAlt, SExpr, SFnBody, VarId,
};
use crate::trace_check::{
    lemma_extends_trans, lemma_push_step, lemma_steps_valid_extend, spec_extends, spec_refs_below, spec_step_fault,
    spec_step_refs, spec_steps_valid, spec_steps_valid_from,
};
use crate::trace_types::{model_steps, STraceStep, TraceStep, ValueId};
use crate::value::{
    le_byte, le_bytes, lemma_view_values, spec_as_u64, spec_get_scalar_bytes, spec_has_u64, spec_scalar_byte,
    spec_set_field, spec_set_scalar_bytes, spec_tag,
    view_values,
    SValue, Value,
};

verus! {

broadcast use {vstd::std_specs::hash::group_hash_axioms, lemma_view_values};

/// Runs a function body until it returns or reaches a call, which it hands
/// back to the interpreter with the body that continues after the call.
pub struct BodyExecutor {
    pub frame: CallFrame,
    pub trace_steps: Vec<TraceStep>,
    pub value_registry: ValueRegistry,
    /// Body steps still allowed in this run.
    pub fuel: u64,
}

/// What running a body up to its next call or return gives.
pub enum ExecResult {
    Return(Value),
    Call { target: String, args: Vec<Value>, result_var: u32, cont: FnBody },
}

/// The model of what running a body gives.
pub enum SStep {
    Return(SValue),
    Call { target: Seq<char>, args: Seq<SValue>, result_var: VarId, cont: SFnBody },
}

impl ExecResult {
    pub open spec fn model(&self) -> SStep {
        match self {
            ExecResult::Return(v) => SStep::Return(v@),
            ExecResult::Call { target, args, result_var, cont } => SStep::Call {
                target: target@,
                args: view_values(args@),
                result_var: *result_var,
                cont: model_body(*cont),
            },
        }
    }
}

/// What running a body gives, and the frame, the recording and the budget it
/// leaves.
pub struct SExecOut {
    pub result: Result<SStep, SInterpError>,
    pub frame: SFrame,
    pub rec: SRec,
    pub fuel: nat,
}

/// A run that stops with an error.
pub open spec fn spec_fail(e: SInterpError, frame: SFrame, rec: SRec, fuel: nat) -> SExecOut {
    SExecOut { result: Err(e), frame, rec, fuel }
}

/// The frame after `var` is set to `obj` and written back up the chain of
/// objects it was projected from.
pub open spec fn spec_store(fr: SFrame, var: VarId, obj: SValue) -> SFrame {
    SFrame { locals: spec_propagate(fr.locals.insert(var, obj), fr.prov, var, fr.prov.len()), jps: fr.jps, prov: fr.prov }
}

/// An object with its constructor index replaced; any other value unchanged.
pub open spec fn spec_set_tag(v: SValue, cidx: u16) -> SValue {
    match v {
        SValue::Object { fields, scalars, .. } => SValue::Object { tag: cidx, fields, scalars },
        _ => v,
    }
}

/// What a call expression bound to `var` hands back: a call of the named
/// function, or of a closure's function on its captured values followed by
/// the arguments, with `cont` to continue after it.
pub open spec fn spec_call_request(l: Map<VarId, SValue>, var: VarId, expr: SExpr, cont: SFnBody) -> Result<
    SStep,
    SInterpError,
> {
    match expr {
        SExpr::FAp { fun, args } => match spec_resolve_args(l, args) {
            Ok(vs) => Ok(SStep::Call { target: fun, args: vs, result_var: var, cont }),
            Err(e) => Err(e.model()),
        },
        SExpr::Ap { fun, args } => if !l.contains_key(fun) {
            Err(SInterpError::UnboundVariable(fun))
        } else {
            match spec_resolve_args(l, args) {
                Err(e) => Err(e.model()),
                Ok(vs) => match l[fun] {
                    SValue::Closure { fn_id, captured, .. } => Ok(
                        SStep::Call { target: fn_id, args: captured + vs, result_var: var, cont },
                    ),
                    _ => Err(SInterpError::ApOnNonClosure),
                },
            }
        },
        _ => Err(SInterpError::Unreachable),
    }
}

/// The frame and recording after binding `var` to the value of a non-call
/// expression; a projection also notes the object it reads from.
pub open spec fn spec_bind_step(fr: SFrame, rec: SRec, var: VarId, ty: IRType, expr: SExpr) -> Result<
    (SFrame, SRec),
    SInterpError,
> {
    match spec_eval(rec, fr.locals, expr, Some(ty)) {
        Err(e) => Err(e),
        Ok((v, rec2)) => Ok((
            SFrame {
                locals: fr.locals.insert(var, v),
                jps: fr.jps,
                prov: match expr {
                    SExpr::Proj { idx, var: src } => fr.prov.insert(
                        var,
                        ProjProvenance { parent_var: src, field_idx: idx as usize },
                    ),
                    _ => fr.prov,
                },
            },
            rec2,
        )),
    }
}

/// The frame and recording after `set var[idx] := val`: the object, the
/// value and the updated object are registered and a `SetResult` step is
/// recorded.
pub open spec fn spec_set_field_step(fr: SFrame, rec: SRec, var: VarId, idx: u32, val: Arg) -> Result<
    (SFrame, SRec),
    SInterpError,
> {
    if !fr.locals.contains_key(var) {
        Err(SInterpError::UnboundVariable(var))
    } else {
        match spec_resolve_arg(fr.locals, val) {
            Err(e) => Err(e.model()),
            Ok(nv) => {
                let obj = fr.locals[var];
                let updated = spec_set_field(obj, idx as int, nv);
                match spec_register(rec.table, obj) {
                    None => Err(SInterpError::ValueTableFull),
                    Some((t1, oid)) => match spec_register(t1, nv) {
                        None => Err(SInterpError::ValueTableFull),
                        Some((t2, vid)) => match spec_register(t2, updated) {
                            None => Err(SInterpError::ValueTableFull),
                            Some((t3, rid)) => Ok(
                                (
                                    spec_store(fr, var, updated),
                                    SRec {
                                        table: t3,
                                        steps: rec.steps.push(
                                            STraceStep::SetResult { obj: oid, idx: idx as u16, val: vid, result: rid },
                                        ),
                                    },
                                ),
                            ),
                        },
                    },
                }
            },
        }
    }
}

/// The frame after storing the first `size` little-endian bytes of the word
/// in `val` into the scalar area of `var` at `offset`.
pub open spec fn spec_scalar_step(fr: SFrame, var: VarId, val: VarId, offset: u32, size: nat) -> Result<
    SFrame,
    SInterpError,
> {
    let l = fr.locals;
    if !l.contains_key(var) {
        Err(SInterpError::UnboundVariable(var))
    } else if !l.contains_key(val) {
        Err(SInterpError::UnboundVariable(val))
    } else if !spec_has_u64(l[val]) {
        Err(SInterpError::NotScalar)
    } else if offset + size > usize::MAX {
        Err(SInterpError::OffsetOverflow)
    } else {
        Ok(
            spec_store(
                fr,
                var,
                spec_set_scalar_bytes(l[var], offset as int, Seq::new(size, |k: int| le_byte(spec_as_u64(l[val]), k))),
            ),
        )
    }
}

/// The frame after setting the constructor index of `var`.
pub open spec fn spec_set_tag_step(fr: SFrame, var: VarId, cidx: u16) -> Result<SFrame, SInterpError> {
    if !fr.locals.contains_key(var) {
        Err(SInterpError::UnboundVariable(var))
    } else {
        Ok(spec_store(fr, var, spec_set_tag(fr.locals[var], cidx)))
    }
}

/// The body a `case` on `scrutinee` continues with, and the recording after
/// the scrutinee is registered and a `Branch` step is recorded.
pub open spec fn spec_case_step(l: Map<VarId, SValue>, rec: SRec, scrutinee: VarId, alts: Seq<SAlt>) -> Result<
    (SFnBody, SRec),
    SInterpError,
> {
    if !l.contains_key(scrutinee) {
        Err(SInterpError::UnboundVariable(scrutinee))
    } else {
        let tag = spec_tag(l[scrutinee]);
        match spec_register(rec.table, l[scrutinee]) {
            None => Err(SInterpError::ValueTableFull),
            Some((t, id)) => if alts.len() == 0 {
                Err(SInterpError::NoMatchingAlt)
            } else {
                Ok(
                    (
                        spec_alt_body(alts[spec_find_alt(alts, tag, 0)]),
                        SRec { table: t, steps: rec.steps.push(STraceStep::Branch { scrutinee: id, chosen_tag: tag }) },
                    ),
                )
            },
        }
    }
}

/// The frame and body a jump continues with: the join point's body, with its
/// parameters bound to the arguments.
pub open spec fn spec_jump_step(fr: SFrame, jp: JoinPointId, args: Seq<Arg>) -> Result<(SFrame, SFnBody), SInterpError> {
    if !fr.jps.contains_key(jp) {
        Err(SInterpError::UnboundJoinPoint(jp))
    } else {
        match spec_resolve_args(fr.locals, args) {
            Err(e) => Err(e.model()),
            Ok(vs) => {
                let d = fr.jps[jp];
                Ok(
                    (
                        SFrame {
                            locals: spec_bind_params(fr.locals, d.params, vs, spec_bound_count(d.params, vs)),
                            jps: fr.jps,
                            prov: fr.prov,
                        },
                        d.body,
                    ),
                )
            },
        }
    }
}

/// Running a body in a frame, against a value table and the steps so far,
/// with a budget of steps: each body node costs one step; the run ends at a
/// return, at a call (handed back with the body that continues after it),
/// or at an error.
pub open spec fn spec_exec(fr: SFrame, rec: SRec, body: SFnBody, fuel: nat) -> SExecOut
    decreases fuel,
{
    if fuel == 0 {
        spec_fail(SInterpError::StepBudgetExhausted, fr, rec, 0)
    } else {
        let f = (fuel - 1) as nat;
        match body {
            SFnBody::VDecl { var, ty, expr, cont } => if expr is FAp || expr is Ap {
                match spec_call_request(fr.locals, var, expr, *cont) {
                    Ok(st) => SExecOut { result: Ok(st), frame: fr, rec, fuel: f },
                    Err(e) => spec_fail(e, fr, rec, f),
                }
            } else {
                match spec_bind_step(fr, rec, var, ty, expr) {
                    Ok((fr2, rec2)) => spec_exec(fr2, rec2, *cont, f),
                    Err(e) => spec_fail(e, fr, rec, f),
                }
            },
            SFnBody::JDecl { jp, params, body: jb, cont } => spec_exec(
                SFrame { locals: fr.locals, jps: fr.jps.insert(jp, SJoinPoint { params, body: *jb }), prov: fr.prov },
                rec,
                *cont,
                f,
            ),
            SFnBody::SetField { var, idx, val, cont } => match spec_set_field_step(fr, rec, var, idx, val) {
                Ok((fr2, rec2)) => spec_exec(fr2, rec2, *cont, f),
                Err(e) => spec_fail(e, fr, rec, f),
            },
            SFnBody::USet { var, idx, val, cont } => match spec_scalar_step(fr, var, val, ((idx as u64) * 8) as u32, 8) {
                Ok(fr2) => spec_exec(fr2, rec, *cont, f),
                Err(e) => spec_fail(e, fr, rec, f),
            },
            SFnBody::SSet { var, offset, val, ty, cont, .. } => match spec_scalar_step(
                fr,
                var,
                val,
                offset,
                spec_type_size(ty),
            ) {
                Ok(fr2) => spec_exec(fr2, rec, *cont, f),
                Err(e) => spec_fail(e, fr, rec, f),
            },
            SFnBody::SetTag { var, cidx, cont } => match spec_set_tag_step(fr, var, cidx) {
                Ok(fr2) => spec_exec(fr2, rec, *cont, f),
                Err(e) => spec_fail(e, fr, rec, f),
            },
            SFnBody::Case { scrutinee, alts, .. } => match spec_case_step(fr.locals, rec, scrutinee, alts) {
                Ok((b, rec2)) => spec_exec(fr, rec2, b, f),
                Err(e) => spec_fail(e, fr, rec, f),
            },
            SFnBody::Ret { arg } => match spec_resolve_arg(fr.locals, arg) {
                Ok(v) => SExecOut { result: Ok(SStep::Return(v)), frame: fr, rec, fuel: f },
                Err(e) => spec_fail(e.model(), fr, rec, f),
            },
            SFnBody::Jmp { jp, args } => match spec_jump_step(fr, jp, args) {
                Ok((fr2, b)) => spec_exec(fr2, rec, b, f),
                Err(e) => spec_fail(e, fr, rec, f),
            },
            SFnBody::Unreachable => spec_fail(SInterpError::Unreachable, fr, rec, f),
        }
    }
}

/// Running a body never leaves more budget than it was given.
pub proof fn lemma_exec_fuel(fr: SFrame, rec: SRec, body: SFnBody, fuel: nat)
    ensures
        spec_exec(fr, rec, body, fuel).fuel <= fuel,
    decreases fuel,
{
    if fuel > 0 {
        let f = (fuel - 1) as nat;
        match body {
            SFnBody::VDecl { var, ty, expr, cont } => {
                if !(expr is FAp || expr is Ap) {
                    match spec_bind_step(fr, rec, var, ty, expr) {
                        Ok((fr2, rec2)) => lemma_exec_fuel(fr2, rec2, *cont, f),
                        Err(_) => {},
                    }
                }
            },
            SFnBody::JDecl { jp, params, body: jb, cont } => lemma_exec_fuel(
                SFrame { locals: fr.locals, jps: fr.jps.insert(jp, SJoinPoint { params, body: *jb }), prov: fr.prov },
                rec,
                *cont,
                f,
            ),
            SFnBody::SetField { var, idx, val, cont } => match spec_set_field_step(fr, rec, var, idx, val) {
                Ok((fr2, rec2)) => lemma_exec_fuel(fr2, rec2, *cont, f),
                Err(_) => {},
            },
            SFnBody::USet { var, idx, val, cont } => match spec_scalar_step(fr, var, val, ((idx as u64) * 8) as u32, 8) {
                Ok(fr2) => lemma_exec_fuel(fr2, rec, *cont, f),
                Err(_) => {},
            },
            SFnBody::SSet { var, offset, val, ty, cont, .. } => match spec_scalar_step(
                fr,
                var,
                val,
                offset,
                spec_type_size(ty),
            ) {
                Ok(fr2) => lemma_exec_fuel(fr2, rec, *cont, f),
                Err(_) => {},
            },
            SFnBody::SetTag { var, cidx, cont } => match spec_set_tag_step(fr, var, cidx) {
                Ok(fr2) => lemma_exec_fuel(fr2, rec, *cont, f),
                Err(_) => {},
            },
            SFnBody::Case { scrutinee, alts, .. } => match spec_case_step(fr.locals, rec, scrutinee, alts) {
                Ok((b, rec2)) => lemma_exec_fuel(fr, rec2, b, f),
                Err(_) => {},
            },
            SFnBody::Jmp { jp, args } => match spec_jump_step(fr, jp, args) {
                Ok((fr2, b)) => lemma_exec_fuel(fr2, rec, b, f),
                Err(_) => {},
            },
            _ => {},
        }
    }
}

/// Whether a run agrees with its model: the same result and budget left,
/// and on success the same frame and recording.
pub open spec fn spec_exec_agrees(
    out: SExecOut,
    r: Result<ExecResult, InterpError>,
    fuel: u64,
    frame: SFrame,
    rec: SRec,
) -> bool {
    match r {
        Err(e) => out.result == Err::<SStep, SInterpError>(e.model()) && out.fuel == fuel,
        Ok(x) => out.result == Ok::<SStep, SInterpError>(x.model()) && out.fuel == fuel && out.frame == frame
            && out.rec == rec,
    }
}

/// Whether a case alternative (by its model) is taken for a tag: a
/// constructor alternative with that index, or a default one.
pub open spec fn spec_alt_matches(alt: SAlt, tag: u16) -> bool {
    match alt {
        SAlt::Ctor { info, .. } => info.cidx == tag,
        SAlt::Default { .. } => true,
    }
}

/// The body of an alternative (by its model).
pub open spec fn spec_alt_body(alt: SAlt) -> SFnBody {
    match alt {
        SAlt::Ctor { body, .. } => body,
        SAlt::Default { body } => body,
    }
}

/// The first alternative from `k` on that is taken for `tag`, else the last.
pub open spec fn spec_find_alt(alts: Seq<SAlt>, tag: u16, k: int) -> int
    decreases alts.len() - k,
{
    if k >= alts.len() {
        alts.len() - 1
    } else if spec_alt_matches(alts[k], tag) {
        k
    } else {
        spec_find_alt(alts, tag, k + 1)
    }
}

proof fn lemma_find_alt_range(alts: Seq<SAlt>, tag: u16, k: int)
    requires
        0 <= k,
        alts.len() > 0,
    ensures
        0 <= spec_find_alt(alts, tag, k) < alts.len(),
    decreases alts.len() - k,
{
    if k < alts.len() && !spec_alt_matches(alts[k], tag) {
        lemma_find_alt_range(alts, tag, k + 1);
    }
}

/// The alternative a `case` on `tag` takes: the first matching one, else the
/// last; `None` when there is none at all.
pub fn find_matching_alt(alts: &Vec<Alt>, tag: u16) -> (r: Option<usize>)
    ensures
        match r {
            Some(i) => alts@.len() > 0 && i as int == spec_find_alt(model_alts(alts@), tag, 0) && i < alts@.len(),
            None => alts@.len() == 0,
        },
{
    if alts.len() == 0 {
        return None;
    }
    proof {
        lemma_find_alt_range(model_alts(alts@), tag, 0);
    }
    let mut i: usize = 0;
    while i < alts.len()
        invariant
            i <= alts@.len(),
            alts@.len() > 0,
            spec_find_alt(model_alts(alts@), tag, i as int) == spec_find_alt(model_alts(alts@), tag, 0),
        decreases alts@.len() - i,
    {
        proof {
            assert(model_alts(alts@)[i as int] == model_alt(alts@[i as int]));
        }
        let hit = match &alts[i] {
            Alt::Ctor { info, .. } => info.cidx == tag,
            Alt::Default { .. } => true,
        };
        if hit {
            return Some(i);
        }
        i = i + 1;
    }
    Some(alts.len() - 1)
}

/// Byte width of a scalar field of an IR type (8 for boxed types).
pub fn ir_type_byte_size(ty: &IRType) -> (r: usize)
    ensures
        r == crate::interpreter::eval_expr::spec_type_size(*ty),
{
    match ty {
        IRType::UInt8 => 1,
        IRType::UInt16 => 2,
        IRType::UInt32 | IRType::Float => 4,
        IRType::UInt64 | IRType::USize => 8,
        _ => 8,
    }
}

impl BodyExecutor {
    /// The value table and the recorded steps, by their models.
    pub open spec fn rec(&self) -> SRec {
        SRec { table: view_values(self.value_registry.table@), steps: model_steps(self.trace_steps@) }
    }

    /// Every id a recorded step names is in the value table, which holds no
    /// value twice.
    pub open spec fn spec_inv(&self) -> bool {
        &&& spec_refs_below(self.trace_steps@, self.value_registry.table@.len())
        &&& self.value_registry.spec_wf()
    }

    /// Every recorded step checks out against the value table, and the
    /// frame's join points have well-formed bodies.
    pub open spec fn spec_valid(&self) -> bool {
        &&& spec_steps_valid(view_values(self.value_registry.table@), self.trace_steps@)
        &&& self.frame.spec_wf()
    }

    /// Every step recorded from the `n`-th on checks out against the value
    /// table, and the frame's join points have well-formed bodies.
    pub open spec fn spec_valid_from(&self, n: int) -> bool {
        &&& spec_steps_valid_from(view_values(self.value_registry.table@), self.trace_steps@, n)
        &&& self.frame.spec_wf()
    }

    /// Facts that hold between the state before and after any operation.
    pub open spec fn spec_grows(&self, old: &Self) -> bool {
        &&& spec_extends(view_values(old.value_registry.table@), view_values(self.value_registry.table@))
        &&& self.trace_steps@.len() >= old.trace_steps@.len()
        &&& self.trace_steps@.subrange(0, old.trace_steps@.len() as int) == old.trace_steps@
        &&& self.fuel <= old.fuel
    }

    fn resolve_arg(&self, arg: &Arg) -> (r: Result<Value, InterpError>)
        ensures
            match r {
                Ok(v) => spec_resolve_arg(spec_locals(self.frame.locals@), *arg) == Ok::<SValue, InterpError>(v@),
                Err(e) => spec_resolve_arg(spec_locals(self.frame.locals@), *arg) == Err::<SValue, InterpError>(e),
            },
    {
        match arg {
            Arg::Var(v) => match self.frame.locals.get(v) {
                Some(x) => Ok(x.clone_value()),
                None => Err(InterpError::UnboundVariable(*v)),
            },
            Arg::Irrelevant => Ok(Value::Irrelevant),
        }
    }

    fn resolve_args(&self, args: &Vec<Arg>) -> (r: Result<Vec<Value>, InterpError>)
        ensures
            match r {
                Ok(vs) => spec_resolve_args(spec_locals(self.frame.locals@), args@) == Ok::<Seq<SValue>, InterpError>(view_values(vs@)),
                Err(e) => spec_resolve_args(spec_locals(self.frame.locals@), args@) == Err::<Seq<SValue>, InterpError>(e),
            },
    {
        let ghost locals = spec_locals(self.frame.locals@);
        let mut out: Vec<Value> = Vec::new();
        let mut i: usize = 0;
        assert(args@.take(0) =~= Seq::<Arg>::empty());
        assert(view_values(out@) =~= Seq::<SValue>::empty());
        while i < args.len()
            invariant
                i <= args@.len(),
                locals == spec_locals(self.frame.locals@),
                spec_resolve_args(locals, args@.take(i as int)) == Ok::<Seq<SValue>, InterpError>(view_values(out@)),
            decreases args@.len() - i,
        {
            assert(args@.take(i + 1).drop_last() =~= args@.take(i as int));
            match self.resolve_arg(&args[i]) {
                Ok(v) => {
                    let ghost before = out@;
                    out.push(v);
                    assert(view_values(out@) =~= view_values(before).push(v@));
                },
                Err(e) => {
                    proof {
                        lemma_resolve_args_err_extend(locals, args@, (i + 1) as int);
                    }
                    return Err(e);
                },
            }
            i = i + 1;
        }
        assert(args@.take(args@.len() as int) =~= args@);
        Ok(out)
    }

    fn register(&mut self, v: &Value) -> (r: Result<ValueId, InterpError>)
        requires
            old(self).spec_inv(),
        ensures
            final(self).spec_inv(),
            old(self).spec_valid() ==> final(self).spec_valid(),
            forall|n: int| #[trigger] old(self).spec_valid_from(n) ==> final(self).spec_valid_from(n),
            final(self).spec_grows(old(self)),
            final(self).frame == old(self).frame,
            final(self).trace_steps == old(self).trace_steps,
            final(self).fuel == old(self).fuel,
            match r {
                Ok(id) => (id as int) < final(self).value_registry.table@.len()
                    && final(self).value_registry.table@[id as int]@ == v@,
                Err(e) => e == InterpError::ValueTableFull,
            },
            match spec_register(view_values(old(self).value_registry.table@), v@) {
                None => r is Err,
                Some((t, id)) => r == Ok::<ValueId, InterpError>(id) && view_values(final(self).value_registry.table@) == t,
            },
    {
        let ghost before = self.value_registry.table@;
        let r = self.value_registry.register(v);
        proof {
            assert(spec_extends(view_values(before), view_values(self.value_registry.table@))) by {
                assert forall|k: int| 0 <= k < view_values(before).len() implies #[trigger] view_values(self.value_registry.table@)[k] == view_values(before)[k] by {
                    assert(self.value_registry.table@[k] == before[k]);
                }
            }
            lemma_steps_valid_extend(view_values(before), view_values(self.value_registry.table@), self.trace_steps@);
            assert(self.trace_steps@.subrange(0, self.trace_steps@.len() as int) =~= self.trace_steps@);
        }
        match r {
            Some(id) => Ok(id),
            None => Err(InterpError::ValueTableFull),
        }
    }

    /// Appends a step that checks out against the current value table.
    fn record(&mut self, step: TraceStep)
        requires
            old(self).spec_inv(),
            forall|j: int| 0 <= j < spec_step_refs(step).len() ==> (#[trigger] spec_step_refs(step)[j])
                < old(self).value_registry.table@.len(),
        ensures
            final(self).spec_inv(),
            old(self).spec_valid() && spec_step_fault(view_values(old(self).value_registry.table@), step) is None
                ==> final(self).spec_valid(),
            forall|n: int|
                #[trigger] old(self).spec_valid_from(n) && spec_step_fault(view_values(old(self).value_registry.table@), step)
                    is None ==> final(self).spec_valid_from(n),
            final(self).spec_grows(old(self)),
            final(self).frame == old(self).frame,
            final(self).value_registry == old(self).value_registry,
            final(self).fuel == old(self).fuel,
            final(self).trace_steps@ == old(self).trace_steps@.push(step),
            model_steps(final(self).trace_steps@) == model_steps(old(self).trace_steps@).push(step.model()),
    {
        let ghost before = self.trace_steps@;
        let ghost t = view_values(self.value_registry.table@);
        let ghost m = step.model();
        self.trace_steps.push(step);
        proof {
            assert(model_steps(self.trace_steps@) =~= model_steps(before).push(m));
            lemma_push_step(t, before, step);
            assert(self.trace_steps@.subrange(0, before.len() as int) =~= before);
            assert(spec_extends(t, t));
        }
    }

    /// Evaluates an expression with the executor's state lent to an evaluator.
    fn eval_expr_inline_with_ty(&mut self, expr: &Expr, ty: &IRType) -> (r: Result<Value, InterpError>)
        requires
            old(self).spec_inv(),
        ensures
            final(self).spec_inv(),
            old(self).spec_valid() && crate::ir_types::spec_expr_wf(*expr) ==> final(self).spec_valid(),
            forall|n: int| #[trigger] old(self).spec_valid_from(n) && crate::ir_types::spec_expr_wf(*expr) ==> final(self).spec_valid_from(n),
            final(self).spec_grows(old(self)),
            final(self).frame == old(self).frame,
            final(self).fuel == old(self).fuel,
            spec_eval_agrees(
                spec_eval(old(self).rec(), spec_locals(old(self).frame.locals@), expr.model(), Some(*ty)),
                r,
                final(self).rec(),
            ),
    {
        let mut frame = CallFrame::new(String::new());
        let mut steps: Vec<TraceStep> = Vec::new();
        let mut registry = ValueRegistry::new();
        std::mem::swap(&mut frame, &mut self.frame);
        std::mem::swap(&mut steps, &mut self.trace_steps);
        std::mem::swap(&mut registry, &mut self.value_registry);
        let mut evaluator = ExprEvaluator { frame, trace_steps: steps, value_registry: registry };
        let ghost ev0 = evaluator;
        let r = evaluator.eval_with_ty(expr, ty);
        let ExprEvaluator { frame, trace_steps, value_registry } = evaluator;
        self.frame = frame;
        self.trace_steps = trace_steps;
        self.value_registry = value_registry;
        proof {
            assert forall|n: int| #[trigger] old(self).spec_valid_from(n) && crate::ir_types::spec_expr_wf(*expr) implies self.spec_valid_from(n) by {
                assert(ev0.spec_valid_from(n));
            }
        }
        r
    }

    /// The call that a call expression bound to `var` makes.
    fn call_request(&self, var: VarId, expr: &Expr, cont: &FnBody) -> (r: Result<ExecResult, InterpError>)
        requires
            *expr is FAp || *expr is Ap,
        ensures
            spec_body_wf(*cont) ==> match r {
                Ok(ExecResult::Call { cont: c, .. }) => spec_body_wf(c),
                _ => true,
            },
            match r {
                Ok(x) => spec_call_request(self.frame.model().locals, var, expr.model(), model_body(*cont))
                    == Ok::<SStep, SInterpError>(x.model()),
                Err(e) => spec_call_request(self.frame.model().locals, var, expr.model(), model_body(*cont))
                    == Err::<SStep, SInterpError>(e.model()),
            },
    {
        match expr {
            Expr::FAp { fun, args } => {
                let arg_values = self.resolve_args(args)?;
                Ok(ExecResult::Call { target: fun.clone(), args: arg_values, result_var: var, cont: clone_body(cont) })
            },
            Expr::Ap { fun, args } => {
                let closure = match self.frame.locals.get(fun) {
                    Some(c) => c.clone_value(),
                    None => {
                        return Err(InterpError::UnboundVariable(*fun));
                    },
                };
                let extra_args = self.resolve_args(args)?;
                match closure {
                    Value::Closure { fn_id, captured, .. } => {
                        let ghost first = view_values(captured@);
                        let mut all_args = captured;
                        let mut i: usize = 0;
                        while i < extra_args.len()
                            invariant
                                i <= extra_args@.len(),
                                view_values(all_args@) == first + view_values(extra_args@).subrange(0, i as int),
                            decreases extra_args@.len() - i,
                        {
                            let ghost before = view_values(all_args@);
                            all_args.push(extra_args[i].clone_value());
                            proof {
                                assert(view_values(all_args@) =~= before.push(extra_args@[i as int]@));
                                assert(view_values(extra_args@).subrange(0, i as int + 1) =~= view_values(
                                    extra_args@,
                                ).subrange(0, i as int).push(extra_args@[i as int]@));
                            }
                            i = i + 1;
                        }
                        assert(view_values(extra_args@).subrange(0, extra_args@.len() as int) =~= view_values(
                            extra_args@,
                        ));
                        Ok(ExecResult::Call { target: fn_id, args: all_args, result_var: var, cont: clone_body(cont) })
                    },
                    _ => Err(InterpError::ApOnNonClosure),
                }
            },
            _ => Err(InterpError::Unreachable),
        }
    }

    /// Binds `var` to the value of a non-call expression.
    fn bind_step(&mut self, var: VarId, ty: &IRType, expr: &Expr) -> (r: Result<(), InterpError>)
        requires
            old(self).spec_inv(),
        ensures
            final(self).spec_inv(),
            old(self).spec_valid() && crate::ir_types::spec_expr_wf(*expr) ==> final(self).spec_valid(),
            forall|n: int| #[trigger] old(self).spec_valid_from(n) && crate::ir_types::spec_expr_wf(*expr) ==> final(self).spec_valid_from(n),
            final(self).spec_grows(old(self)),
            final(self).fuel == old(self).fuel,
            match r {
                Ok(_) => spec_bind_step(old(self).frame.model(), old(self).rec(), var, *ty, expr.model()) == Ok::<
                    (SFrame, SRec),
                    SInterpError,
                >((final(self).frame.model(), final(self).rec())),
                Err(e) => spec_bind_step(old(self).frame.model(), old(self).rec(), var, *ty, expr.model()) == Err::<
                    (SFrame, SRec),
                    SInterpError,
                >(e.model()),
            },
    {
        if let Expr::Proj { idx, var: src_var } = expr {
            self.frame.record_proj(var, *src_var, *idx as usize);
        }
        let ghost s1 = *self;
        proof {
            assert(s1.spec_grows(old(self))) by {
                assert(s1.trace_steps@.subrange(0, s1.trace_steps@.len() as int) =~= s1.trace_steps@);
                assert(spec_extends(view_values(s1.value_registry.table@), view_values(s1.value_registry.table@)));
            }
            assert forall|n: int| #[trigger] old(self).spec_valid_from(n) implies s1.spec_valid_from(n) by {
                assert(old(self).spec_valid() ==> s1.spec_valid());
            }
        }
        let val = self.eval_expr_inline_with_ty(expr, ty)?;
        self.frame.set_var(var, val);
        proof {
            assert(self.trace_steps@.subrange(0, s1.trace_steps@.len() as int) =~= s1.trace_steps@);
            lemma_grows_trans(*old(self), s1, *self);
        }
        Ok(())
    }

    /// `set var[idx] := val`, recorded as a step.
    fn set_field_step(&mut self, var: VarId, idx: u32, val: &Arg) -> (r: Result<(), InterpError>)
        requires
            old(self).spec_inv(),
        ensures
            final(self).spec_inv(),
            old(self).spec_valid() && idx <= u16::MAX ==> final(self).spec_valid(),
            forall|n: int| #[trigger] old(self).spec_valid_from(n) && idx <= u16::MAX ==> final(self).spec_valid_from(n),
            final(self).spec_grows(old(self)),
            final(self).fuel == old(self).fuel,
            match r {
                Ok(_) => spec_set_field_step(old(self).frame.model(), old(self).rec(), var, idx, *val) == Ok::<
                    (SFrame, SRec),
                    SInterpError,
                >((final(self).frame.model(), final(self).rec())),
                Err(e) => spec_set_field_step(old(self).frame.model(), old(self).rec(), var, idx, *val) == Err::<
                    (SFrame, SRec),
                    SInterpError,
                >(e.model()),
            },
    {
        let mut obj = match self.frame.locals.get(&var) {
            Some(o) => o.clone_value(),
            None => {
                proof {
                    lemma_grows_refl(*self);
                }
                return Err(InterpError::UnboundVariable(var));
            },
        };
        let new_val = match self.resolve_arg(val) {
            Ok(v) => v,
            Err(e) => {
                proof {
                    lemma_grows_refl(*self);
                }
                return Err(e);
            },
        };
        let ghost s0 = *self;
        let obj_id = self.register(&obj)?;
        let ghost s1 = *self;
        let val_id = self.register(&new_val)?;
        let ghost s2 = *self;
        obj.set_field(idx as usize, new_val);
        let result_id = self.register(&obj)?;
        let ghost s3 = *self;
        proof {
            lemma_grows_trans(s0, s1, s2);
            lemma_grows_trans(s0, s2, s3);
            let t = view_values(self.value_registry.table@);
            assert(t[obj_id as int] == view_values(s1.value_registry.table@)[obj_id as int]);
            assert(t[val_id as int] == view_values(s2.value_registry.table@)[val_id as int]);
            if idx <= u16::MAX {
                assert((idx as u16) as int == idx as int);
            }
            assert(spec_step_refs(TraceStep::SetResult { obj: obj_id, idx: idx as u16, val: val_id, result: result_id })
                == seq![obj_id, val_id, result_id]);
        }
        self.record(TraceStep::SetResult { obj: obj_id, idx: idx as u16, val: val_id, result: result_id });
        self.frame.set_var(var, obj);
        self.frame.propagate_set(var);
        proof {
            lemma_grows_trans(s0, s3, *self);
        }
        Ok(())
    }

    /// Stores the first `size` little-endian bytes of the word in `val` into
    /// the scalar area of `var` at `offset`.
    fn scalar_step(&mut self, var: VarId, val: VarId, offset: u32, size: usize) -> (r: Result<(), InterpError>)
        requires
            old(self).spec_inv(),
            size <= 8,
        ensures
            final(self).spec_inv(),
            old(self).spec_valid() ==> final(self).spec_valid(),
            forall|n: int| #[trigger] old(self).spec_valid_from(n) ==> final(self).spec_valid_from(n),
            final(self).spec_grows(old(self)),
            final(self).fuel == old(self).fuel,
            final(self).trace_steps == old(self).trace_steps,
            final(self).value_registry == old(self).value_registry,
            match r {
                Ok(_) => spec_scalar_step(old(self).frame.model(), var, val, offset, size as nat) == Ok::<
                    SFrame,
                    SInterpError,
                >(final(self).frame.model()),
                Err(e) => spec_scalar_step(old(self).frame.model(), var, val, offset, size as nat) == Err::<
                    SFrame,
                    SInterpError,
                >(e.model()),
            },
    {
        proof {
            lemma_grows_refl(*self);
        }
        let obj = match self.frame.locals.get(&var) {
            Some(o) => o.clone_value(),
            None => {
                return Err(InterpError::UnboundVariable(var));
            },
        };
        let x = match self.frame.locals.get(&val) {
            Some(v) => {
                if matches!(v, Value::Scalar(_) | Value::Irrelevant | Value::Object { .. }) {
                    v.as_u64()
                } else {
                    return Err(InterpError::NotScalar);
                }
            },
            None => {
                return Err(InterpError::UnboundVariable(val));
            },
        };
        if size > usize::MAX - (offset as usize) {
            return Err(InterpError::OffsetOverflow);
        }
        let bytes = le_bytes(x, size);
        let mut obj = obj;
        obj.set_scalar_bytes(0, offset, bytes.as_slice());
        self.frame.set_var(var, obj);
        self.frame.propagate_set(var);
        proof {
            assert(self.trace_steps@.subrange(0, self.trace_steps@.len() as int) =~= self.trace_steps@);
            assert(spec_extends(view_values(self.value_registry.table@), view_values(self.value_registry.table@)));
        }
        Ok(())
    }

    /// Sets the constructor index of the object in `var`.
    fn set_tag_step(&mut self, var: VarId, cidx: u16) -> (r: Result<(), InterpError>)
        requires
            old(self).spec_inv(),
        ensures
            final(self).spec_inv(),
            old(self).spec_valid() ==> final(self).spec_valid(),
            forall|n: int| #[trigger] old(self).spec_valid_from(n) ==> final(self).spec_valid_from(n),
            final(self).spec_grows(old(self)),
            final(self).fuel == old(self).fuel,
            final(self).trace_steps == old(self).trace_steps,
            final(self).value_registry == old(self).value_registry,
            match r {
                Ok(_) => spec_set_tag_step(old(self).frame.model(), var, cidx) == Ok::<SFrame, SInterpError>(
                    final(self).frame.model(),
                ),
                Err(e) => spec_set_tag_step(old(self).frame.model(), var, cidx) == Err::<SFrame, SInterpError>(
                    e.model(),
                ),
            },
    {
        proof {
            lemma_grows_refl(*self);
        }
        let obj = match self.frame.locals.get(&var) {
            Some(o) => o.clone_value(),
            None => {
                return Err(InterpError::UnboundVariable(var));
            },
        };
        let obj = match obj {
            Value::Object { tag: _, fields, scalars } => Value::Object { tag: cidx, fields, scalars },
            other => other,
        };
        self.frame.set_var(var, obj);
        self.frame.propagate_set(var);
        proof {
            assert(self.trace_steps@.subrange(0, self.trace_steps@.len() as int) =~= self.trace_steps@);
            assert(spec_extends(view_values(self.value_registry.table@), view_values(self.value_registry.table@)));
        }
        Ok(())
    }

    /// Records the branch a `case` takes and gives the index of its alternative.
    fn case_step(&mut self, scrutinee: VarId, alts: &Vec<Alt>) -> (r: Result<usize, InterpError>)
        requires
            old(self).spec_inv(),
        ensures
            final(self).spec_inv(),
            old(self).spec_valid() ==> final(self).spec_valid(),
            forall|n: int| #[trigger] old(self).spec_valid_from(n) ==> final(self).spec_valid_from(n),
            final(self).spec_grows(old(self)),
            final(self).fuel == old(self).fuel,
            final(self).frame == old(self).frame,
            match r {
                Ok(i) => i < alts@.len() && spec_case_step(
                    old(self).frame.model().locals,
                    old(self).rec(),
                    scrutinee,
                    model_alts(alts@),
                ) == Ok::<(SFnBody, SRec), SInterpError>((model_body(alts@[i as int].spec_body()), final(self).rec())),
                Err(e) => spec_case_step(old(self).frame.model().locals, old(self).rec(), scrutinee, model_alts(alts@))
                    == Err::<(SFnBody, SRec), SInterpError>(e.model()),
            },
    {
        let val = match self.frame.locals.get(&scrutinee) {
            Some(v) => v.clone_value(),
            None => {
                proof {
                    lemma_grows_refl(*self);
                }
                return Err(InterpError::UnboundVariable(scrutinee));
            },
        };
        let tag = val.tag();
        let scrutinee_id = self.register(&val)?;
        proof {
            assert(spec_tag(view_values(self.value_registry.table@)[scrutinee_id as int]) == tag);
        }
        let ghost s1 = *self;
        self.record(TraceStep::Branch { scrutinee: scrutinee_id, chosen_tag: tag });
        proof {
            lemma_grows_trans(*old(self), s1, *self);
            assert(model_alts(alts@).len() == alts@.len());
        }
        match find_matching_alt(alts, tag) {
            Some(i) => {
                proof {
                    assert(model_alts(alts@)[i as int] == model_alt(alts@[i as int]));
                }
                Ok(i)
            },
            None => Err(InterpError::NoMatchingAlt),
        }
    }

    /// Binds a join point's parameters to the arguments of a jump and gives
    /// the join point's body.
    fn jump_step(&mut self, jp: JoinPointId, args: &Vec<Arg>) -> (r: Result<FnBody, InterpError>)
        requires
            old(self).spec_inv(),
        ensures
            final(self).spec_inv(),
            old(self).spec_valid() ==> final(self).spec_valid(),
            forall|n: int| #[trigger] old(self).spec_valid_from(n) ==> final(self).spec_valid_from(n),
            final(self).spec_grows(old(self)),
            final(self).fuel == old(self).fuel,
            final(self).trace_steps == old(self).trace_steps,
            final(self).value_registry == old(self).value_registry,
            match r {
                Ok(b) => (old(self).frame.spec_wf() ==> spec_body_wf(b)) && spec_jump_step(old(self).frame.model(), jp, args@) == Ok::<
                    (SFrame, SFnBody),
                    SInterpError,
                >((final(self).frame.model(), model_body(b))),
                Err(e) => spec_jump_step(old(self).frame.model(), jp, args@) == Err::<(SFrame, SFnBody), SInterpError>(
                    e.model(),
                ),
            },
    {
        proof {
            lemma_grows_refl(*self);
        }
        let jp_def = match self.frame.join_points.get(&jp) {
            Some(d) => JoinPointDef { params: clone_params(&d.params), body: clone_body(&d.body) },
            None => {
                return Err(InterpError::UnboundJoinPoint(jp));
            },
        };
        let arg_values = self.resolve_args(args)?;
        let ghost fr0 = self.frame.model();
        let ghost vs = view_values(arg_values@);
        let mut i: usize = 0;
        while i < jp_def.params.len() && i < arg_values.len()
            invariant
                i <= jp_def.params@.len(),
                i <= arg_values@.len(),
                vs == view_values(arg_values@),
                self.spec_inv(),
                self.spec_grows(old(self)),
                self.fuel == old(self).fuel,
                self.trace_steps == old(self).trace_steps,
                self.value_registry == old(self).value_registry,
                self.frame.join_points@ == old(self).frame.join_points@,
                old(self).frame.spec_wf() ==> spec_body_wf(jp_def.body),
                self.frame.model() == (SFrame {
                    locals: spec_bind_params(fr0.locals, jp_def.params@, vs, i as nat),
                    jps: fr0.jps,
                    prov: fr0.prov,
                }),
            decreases jp_def.params@.len() - i,
        {
            let ghost before = *self;
            self.frame.set_var(jp_def.params[i].var, arg_values[i].clone_value());
            proof {
                assert(self.trace_steps@.subrange(0, self.trace_steps@.len() as int) =~= self.trace_steps@);
                assert(spec_extends(view_values(self.value_registry.table@), view_values(self.value_registry.table@)));
                lemma_grows_trans(*old(self), before, *self);
            }
            i = i + 1;
        }
        Ok(jp_def.body)
    }

    /// Runs a body until it returns a value or reaches a call; every step it
    /// records checks out against the value table (whatever was recorded
    /// before), and the run agrees with `spec_exec`.
    pub fn exec(&mut self, body: &FnBody) -> (r: Result<ExecResult, InterpError>)
        requires
            old(self).spec_inv(),
        ensures
            final(self).spec_inv(),
            final(self).spec_grows(old(self)),
            old(self).spec_valid() && spec_body_wf(*body) ==> final(self).spec_valid(),
            old(self).frame.spec_wf() && spec_body_wf(*body) ==> match r {
                Ok(ExecResult::Call { cont, .. }) => spec_body_wf(cont),
                _ => true,
            },
            forall|n: int| #[trigger] old(self).spec_valid_from(n) && spec_body_wf(*body) ==> final(self).spec_valid_from(n),
            old(self).frame.spec_wf() && spec_body_wf(*body) ==> final(self).spec_valid_from(
                old(self).trace_steps@.len() as int,
            ),
            spec_exec_agrees(
                spec_exec(old(self).frame.model(), old(self).rec(), model_body(*body), old(self).fuel as nat),
                r,
                final(self).fuel,
                final(self).frame.model(),
                final(self).rec(),
            ),
    {
        let ghost n = self.trace_steps@.len() as int;
        proof {
            assert(self.frame.spec_wf() ==> self.spec_valid_from(n));
        }
        self.exec_run(body)
    }

    /// The run of `exec`, which it states for every earlier step count: the
    /// steps from any point on that checked out still do, with the new ones.
    #[verifier::rlimit(60)]
    fn exec_run(&mut self, body: &FnBody) -> (r: Result<ExecResult, InterpError>)
        requires
            old(self).spec_inv(),
        ensures
            final(self).spec_inv(),
            final(self).spec_grows(old(self)),
            old(self).spec_valid() && spec_body_wf(*body) ==> final(self).spec_valid(),
            old(self).frame.spec_wf() && spec_body_wf(*body) ==> match r {
                Ok(ExecResult::Call { cont, .. }) => spec_body_wf(cont),
                _ => true,
            },
            forall|n: int| #[trigger] old(self).spec_valid_from(n) && spec_body_wf(*body) ==> final(self).spec_valid_from(n),
            spec_exec_agrees(
                spec_exec(old(self).frame.model(), old(self).rec(), model_body(*body), old(self).fuel as nat),
                r,
                final(self).fuel,
                final(self).frame.model(),
                final(self).rec(),
            ),
        decreases old(self).fuel,
    {
        if self.fuel == 0 {
            proof {
                lemma_grows_refl(*self);
            }
            return Err(InterpError::StepBudgetExhausted);
        }
        self.fuel = self.fuel - 1;
        let ghost s0 = *self;
        proof {
            assert forall|n: int| #[trigger] old(self).spec_valid_from(n) == s0.spec_valid_from(n) by {}
            assert(s0.frame.spec_wf() ==> s0.spec_valid_from(s0.trace_steps@.len() as int));
            assert(s0.spec_grows(old(self))) by {
                assert(self.trace_steps@.subrange(0, self.trace_steps@.len() as int) =~= self.trace_steps@);
                assert(spec_extends(view_values(self.value_registry.table@), view_values(self.value_registry.table@)));
            }
        }
        match body {
            FnBody::VDecl { var, ty, expr, cont } => {
                if matches!(expr, Expr::FAp { .. } | Expr::Ap { .. }) {
                    return self.call_request(*var, expr, cont);
                }
                self.bind_step(*var, ty, expr)?;
                let ghost s1 = *self;
                let r = self.exec_run(cont);
                proof {
                    lemma_grows_trans(*old(self), s0, s1);
                    lemma_grows_trans(*old(self), s1, *self);
                }
                r
            },
            FnBody::JDecl { jp, params, body: jp_body, cont } => {
                self.frame.register_jp(*jp, clone_params(params), clone_body(jp_body));
                let ghost s1 = *self;
                proof {
                    assert forall|n: int| #[trigger] s0.spec_valid_from(n) && spec_body_wf(*body) implies s1.spec_valid_from(n) by {
                        assert(s0.spec_valid() && spec_body_wf(*body) ==> s1.frame.spec_wf());
                    }
                }
                let r = self.exec_run(cont);
                proof {
                    lemma_grows_trans(*old(self), s0, *self);
                    assert forall|n: int| #[trigger] old(self).spec_valid_from(n) && spec_body_wf(*body) implies self.spec_valid_from(n) by {
                        assert(s0.spec_valid_from(n));
                        assert(s1.spec_valid_from(n));
                    }
                }
                r
            },
            FnBody::SetField { var, idx, val, cont } => {
                self.set_field_step(*var, *idx, val)?;
                let ghost s1 = *self;
                let r = self.exec_run(cont);
                proof {
                    lemma_grows_trans(*old(self), s0, s1);
                    lemma_grows_trans(*old(self), s1, *self);
                }
                r
            },
            FnBody::USet { var, idx, val, cont } => {
                let offset: u32 = #[verifier::truncate] (((*idx as u64) * 8) as u32);
                self.scalar_step(*var, *val, offset, 8)?;
                let ghost s1 = *self;
                let r = self.exec_run(cont);
                proof {
                    lemma_grows_trans(*old(self), s0, s1);
                    lemma_grows_trans(*old(self), s1, *self);
                }
                r
            },
            FnBody::SSet { var, n: _, offset, val, ty, cont } => {
                let size = ir_type_byte_size(ty);
                self.scalar_step(*var, *val, *offset, size)?;
                let ghost s1 = *self;
                let r = self.exec_run(cont);
                proof {
                    lemma_grows_trans(*old(self), s0, s1);
                    lemma_grows_trans(*old(self), s1, *self);
                }
                r
            },
            FnBody::SetTag { var, cidx, cont } => {
                self.set_tag_step(*var, *cidx)?;
                let ghost s1 = *self;
                let r = self.exec_run(cont);
                proof {
                    lemma_grows_trans(*old(self), s0, s1);
                    lemma_grows_trans(*old(self), s1, *self);
                }
                r
            },
            FnBody::Case { tid: _, scrutinee, alts } => {
                let i = self.case_step(*scrutinee, alts)?;
                let ghost s1 = *self;
                proof {
                    if spec_body_wf(*body) {
                        assert(spec_alts_wf(alts@));
                        assert(spec_body_wf(alts@[i as int].spec_body()));
                    }
                }
                let r = self.exec_run(alts[i].body());
                proof {
                    lemma_grows_trans(*old(self), s0, s1);
                    lemma_grows_trans(*old(self), s1, *self);
                }
                r
            },
            FnBody::Ret { arg } => {
                let v = self.resolve_arg(arg)?;
                Ok(ExecResult::Return(v))
            },
            FnBody::Jmp { jp, args } => {
                let jp_body = self.jump_step(*jp, args)?;
                let ghost s1 = *self;
                let r = self.exec_run(&jp_body);
                proof {
                    lemma_grows_trans(*old(self), s0, s1);
                    lemma_grows_trans(*old(self), s1, *self);
                }
                r
            },
            FnBody::Unreachable => Err(InterpError::Unreachable),
        }
    }
}

/// Every state keeps and extends itself.
proof fn lemma_grows_refl(a: BodyExecutor)
    ensures
        a.spec_grows(&a),
{
    assert(a.trace_steps@.subrange(0, a.trace_steps@.len() as int) =~= a.trace_steps@);
    assert(spec_extends(view_values(a.value_registry.table@), view_values(a.value_registry.table@)));
}

/// What one operation keeps and adds on, the next keeps and adds on to.
proof fn lemma_grows_trans(a: BodyExecutor, b: BodyExecutor, c: BodyExecutor)
    requires
        b.spec_grows(&a),
        c.spec_grows(&b),
    ensures
        c.spec_grows(&a),
{
    lemma_extends_trans(view_values(a.value_registry.table@), view_values(b.value_registry.table@), view_values(c.value_registry.table@));
    assert(c.trace_steps@.subrange(0, a.trace_steps@.len() as int) =~= b.trace_steps@.subrange(0, a.trace_steps@.len() as int));
}


/// The alternative found from `k` on: no earlier one from `k` is taken for
/// the tag, and the found one is taken or is the last.
proof fn lemma_find_alt_first(alts: Seq<SAlt>, tag: u16, k: int)
    requires
        0 <= k < alts.len(),
    ensures
        ({
            let r = spec_find_alt(alts, tag, k);
            &&& k <= r < alts.len()
            &&& forall|j: int| k <= j < r ==> (#[trigger] alts[j] matches SAlt::Ctor { info, .. } && info.cidx != tag)
            &&& (alts[r] matches SAlt::Ctor { info, .. } && info.cidx == tag) || alts[r] is Default || r == alts.len() - 1
        }),
    decreases alts.len() - k,
{
    if !spec_alt_matches(alts[k], tag) {
        assert(alts[k] matches SAlt::Ctor { info, .. } && info.cidx != tag);
        if k + 1 < alts.len() {
            lemma_find_alt_first(alts, tag, k + 1);
            assert(spec_find_alt(alts, tag, k) == spec_find_alt(alts, tag, k + 1));
        } else {
            assert(spec_find_alt(alts, tag, k + 1) == alts.len() - 1);
            assert(spec_find_alt(alts, tag, k) == k);
        }
    } else {
        assert(spec_find_alt(alts, tag, k) == k);
    }
}

/// A `case` on a bound scrutinee with alternatives, with room in the value
/// table: it continues with the body of the first alternative that is a
/// constructor alternative with the scrutinee's tag (an object's tag, a
/// scalar's low 16 bits, 0 otherwise) or a default one, or with the last
/// alternative when none is; it records one `Branch` step with that tag,
/// whose id names the scrutinee's value in the table.
pub proof fn lemma_case_step_meaning(l: Map<VarId, SValue>, rec: SRec, scrutinee: VarId, alts: Seq<SAlt>)
    requires
        l.contains_key(scrutinee),
        alts.len() > 0,
        rec.table.len() + 1 < u32::MAX,
    ensures
        ({
            let v = l[scrutinee];
            let tag: u16 = match v {
                SValue::Object { tag, .. } => tag,
                SValue::Scalar(x) => x as u16,
                _ => 0u16,
            };
            spec_case_step(l, rec, scrutinee, alts) matches Ok((b, rec2)) && (exists|k: int|
                0 <= k < alts.len() && b == (match alts[k] {
                    SAlt::Ctor { body, .. } => body,
                    SAlt::Default { body } => body,
                }) && (forall|j: int| 0 <= j < k ==> (#[trigger] alts[j] matches SAlt::Ctor { info, .. } && info.cidx
                    != tag)) && ((alts[k] matches SAlt::Ctor { info, .. } && info.cidx == tag) || alts[k] is Default || k
                    == alts.len() - 1)) && rec2.steps.len() == rec.steps.len() + 1 && rec2.steps.subrange(
                0,
                rec.steps.len() as int,
            ) == rec.steps && (rec2.steps[rec.steps.len() as int] matches STraceStep::Branch {
                scrutinee: id,
                chosen_tag,
            } && chosen_tag == tag && rec2.table[id as int] == v)
        }),
{
    let v = l[scrutinee];
    crate::interpreter::registry::lemma_register_meaning(rec.table, v);
    let tag = spec_tag(v);
    lemma_find_alt_first(alts, tag, 0);
    let k = spec_find_alt(alts, tag, 0);
    let (b, rec2) = spec_case_step(l, rec, scrutinee, alts)->Ok_0;
    assert(rec2.steps.subrange(0, rec.steps.len() as int) =~= rec.steps);
    assert(b == (match alts[k] {
        SAlt::Ctor { body, .. } => body,
        SAlt::Default { body } => body,
    }));
}

/// `set var[idx] := val` with `var` and `val` bound and room in the value
/// table: `var` holds its object with field `idx` replaced by the value of
/// `val` (the object itself when it has no such field, and any other value
/// unchanged), written back up to the objects it was projected from; one
/// `SetResult` step is recorded whose ids name the old object, the new field
/// value and the new object in the table.
pub proof fn lemma_set_field_meaning(fr: SFrame, rec: SRec, var: VarId, idx: u32, val: Arg)
    requires
        fr.locals.contains_key(var),
        val matches Arg::Var(x) ==> fr.locals.contains_key(x),
        rec.table.len() + 3 < u32::MAX,
    ensures
        ({
            let obj = fr.locals[var];
            let nv = match val {
                Arg::Var(x) => fr.locals[x],
                Arg::Irrelevant => SValue::Irrelevant,
            };
            let updated = match obj {
                SValue::Object { tag, fields, scalars } => if (idx as int) < fields.len() {
                    SValue::Object { tag, fields: fields.update(idx as int, nv), scalars }
                } else {
                    obj
                },
                _ => obj,
            };
            spec_set_field_step(fr, rec, var, idx, val) matches Ok((fr2, rec2)) && fr2 == spec_store(fr, var, updated)
                && rec2.steps.len() == rec.steps.len() + 1 && rec2.steps.subrange(0, rec.steps.len() as int)
                == rec.steps && (rec2.steps[rec.steps.len() as int] matches STraceStep::SetResult {
                obj: oid,
                idx: i,
                val: vid,
                result: rid,
            } && i == idx as u16 && rec2.table[oid as int] == obj && rec2.table[vid as int] == nv && rec2.table[rid as int]
                == updated)
        }),
{
    let obj = fr.locals[var];
    let nv = spec_resolve_arg(fr.locals, val)->Ok_0;
    crate::interpreter::registry::lemma_register_meaning(rec.table, obj);
    let (t1, oid) = spec_register(rec.table, obj)->Some_0;
    crate::interpreter::registry::lemma_register_meaning(t1, nv);
    let (t2, vid) = spec_register(t1, nv)->Some_0;
    crate::interpreter::registry::lemma_register_meaning(t2, spec_set_field(obj, idx as int, nv));
    let rec2 = spec_set_field_step(fr, rec, var, idx, val)->Ok_0.1;
    assert(rec2.steps.subrange(0, rec.steps.len() as int) =~= rec.steps);
}

/// Storing the low `size` bytes of a bound word into the scalar area of a
/// bound object at `offset`: reading those bytes back gives the word's
/// bytes, least significant first; the tag, the fields and every other
/// scalar byte stay; a value that is not an object is left as it is; the
/// result is written back up to the objects it was projected from.
pub proof fn lemma_scalar_store_meaning(fr: SFrame, var: VarId, val: VarId, offset: u32, size: nat)
    requires
        fr.locals.contains_key(var),
        fr.locals.contains_key(val),
        spec_has_u64(fr.locals[val]),
        offset + size <= usize::MAX,
    ensures
        ({
            let obj = fr.locals[var];
            let x = spec_as_u64(fr.locals[val]);
            spec_scalar_step(fr, var, val, offset, size) matches Ok(fr2) && exists|w: SValue|
                fr2 == spec_store(fr, var, w) && (obj is Object ==> {
                    &&& w is Object && w->tag == obj->tag && w->fields == obj->fields
                    &&& spec_get_scalar_bytes(w, offset as int, size) == Seq::new(size, |k: int| le_byte(x, k))
                    &&& forall|k: int| 0 <= k && !(offset <= k < offset + size) ==> #[trigger] spec_scalar_byte(w, k)
                        == spec_scalar_byte(obj, k)
                }) && (!(obj is Object) ==> w == obj)
        }),
{
    let obj = fr.locals[var];
    let x = spec_as_u64(fr.locals[val]);
    let data = Seq::new(size, |k: int| le_byte(x, k));
    crate::value::lemma_scalar_bytes_read_back(obj, offset as int, data);
    let w = spec_set_scalar_bytes(obj, offset as int, data);
}

/// Setting the constructor index of a bound variable: an object gets the
/// new tag and keeps its fields and scalar bytes; any other value stays; the
/// result is written back up to the objects it was projected from.
pub proof fn lemma_set_tag_meaning(fr: SFrame, var: VarId, cidx: u16)
    requires
        fr.locals.contains_key(var),
    ensures
        spec_set_tag_step(fr, var, cidx) == Ok::<SFrame, SInterpError>(spec_store(
            fr,
            var,
            match fr.locals[var] {
                SValue::Object { fields, scalars, .. } => SValue::Object { tag: cidx, fields, scalars },
                v => v,
            },
        )),
{
}


/// One step of running a body, for the statements that bind no value:
/// - `sset var[n, offset] := val : ty` stores as many bytes of the word as
///   the declared type has (1 for `UInt8`, 2 for `UInt16`, 4 for `UInt32`
///   and `Float`, 8 otherwise), whatever `n` says, and goes on;
/// - `uset var[idx] := val` stores 8 bytes at `idx * 8` (kept to 32 bits);
/// - `setTag` stores the object with its new tag; a join point declaration
///   adds the join point and goes on;
/// - `ret arg` returns the argument's value, changing nothing;
/// - `unreachable` fails.
/// Each costs one budget step.
pub proof fn lemma_exec_statements(fr: SFrame, rec: SRec, body: SFnBody, fuel: nat)
    requires
        fuel > 0,
    ensures
        ({
            let out = spec_exec(fr, rec, body, fuel);
            let f = (fuel - 1) as nat;
            match body {
                SFnBody::SSet { var, offset, val, ty, cont, .. } => {
                    let w: nat = match ty {
                        IRType::UInt8 => 1,
                        IRType::UInt16 => 2,
                        IRType::UInt32 | IRType::Float => 4,
                        _ => 8,
                    };
                    fr.locals.contains_key(var) && fr.locals.contains_key(val) && spec_has_u64(fr.locals[val])
                        && offset + w <= usize::MAX ==> (spec_scalar_step(fr, var, val, offset, w) matches Ok(fr2)
                        && out == spec_exec(fr2, rec, *cont, f))
                },
                SFnBody::USet { var, idx, val, cont } => {
                    let o = ((idx as int * 8) % 0x1_0000_0000) as u32;
                    fr.locals.contains_key(var) && fr.locals.contains_key(val) && spec_has_u64(fr.locals[val])
                        && o + 8 <= usize::MAX ==> (spec_scalar_step(fr, var, val, o, 8) matches Ok(fr2) && out
                        == spec_exec(fr2, rec, *cont, f))
                },
                SFnBody::SetTag { var, cidx, cont } => fr.locals.contains_key(var) ==> out == spec_exec(
                    spec_store(
                        fr,
                        var,
                        match fr.locals[var] {
                            SValue::Object { fields, scalars, .. } => SValue::Object { tag: cidx, fields, scalars },
                            v => v,
                        },
                    ),
                    rec,
                    *cont,
                    f,
                ),
                SFnBody::JDecl { jp, params, body: jb, cont } => out == spec_exec(
                    SFrame {
                        locals: fr.locals,
                        jps: fr.jps.insert(jp, SJoinPoint { params, body: *jb }),
                        prov: fr.prov,
                    },
                    rec,
                    *cont,
                    f,
                ),
                SFnBody::Ret { arg } => (arg matches Arg::Var(x) ==> fr.locals.contains_key(x)) ==> out == (SExecOut {
                    result: Ok(
                        SStep::Return(
                            match arg {
                                Arg::Var(x) => fr.locals[x],
                                Arg::Irrelevant => SValue::Irrelevant,
                            },
                        ),
                    ),
                    frame: fr,
                    rec,
                    fuel: f,
                }),
                SFnBody::Unreachable => out.result == Err::<SStep, SInterpError>(SInterpError::Unreachable),
                _ => true,
            }
        }),
{
    if let SFnBody::USet { idx, .. } = body {
        assert(((idx as u64) * 8) as u32 as int == (idx as int * 8) % 0x1_0000_0000) by (bit_vector);
    }
}


/// A call expression bound to `var` hands back a call: a full application
/// calls the named function on the argument values; an application of a
/// closure calls the closure's function on its captured values followed by
/// the argument values. Either way the result goes to `var` and the run
/// goes on with `cont`.
pub proof fn lemma_call_requests(l: Map<VarId, SValue>, var: VarId, e: SExpr, cont: SFnBody)
    ensures
        match e {
            SExpr::FAp { fun, args } => crate::interpreter::eval_expr::spec_args_bound(l, args) ==> spec_call_request(
                l,
                var,
                e,
                cont,
            ) == Ok::<SStep, SInterpError>(
                SStep::Call {
                    target: fun,
                    args: Seq::new(args.len(), |j: int| crate::interpreter::eval_expr::spec_arg_value(l, args[j])),
                    result_var: var,
                    cont,
                },
            ),
            SExpr::Ap { fun, args } => crate::interpreter::eval_expr::spec_args_bound(l, args) && l.contains_key(fun)
                && l[fun] is Closure ==> spec_call_request(l, var, e, cont) == Ok::<SStep, SInterpError>(
                SStep::Call {
                    target: l[fun]->fn_id,
                    args: l[fun]->captured + Seq::new(
                        args.len(),
                        |j: int| crate::interpreter::eval_expr::spec_arg_value(l, args[j]),
                    ),
                    result_var: var,
                    cont,
                },
            ),
            _ => true,
        },
{
    match e {
        SExpr::FAp { args, .. } => {
            if crate::interpreter::eval_expr::spec_args_bound(l, args) {
                crate::interpreter::eval_expr::lemma_resolve_bound_args(l, args);
            }
        },
        SExpr::Ap { args, .. } => {
            if crate::interpreter::eval_expr::spec_args_bound(l, args) {
                crate::interpreter::eval_expr::lemma_resolve_bound_args(l, args);
            }
        },
        _ => {},
    }
}


/// A jump to a declared join point with bound arguments goes on with the
/// join point's body, in a frame where each of its parameters (up to the
/// number of arguments) holds the matching argument value (the last one
/// when a variable is named twice), every other variable keeps its value,
/// and the join points and projection sources stay.
pub proof fn lemma_jump_meaning(fr: SFrame, jp: JoinPointId, args: Seq<Arg>)
    requires
        fr.jps.contains_key(jp),
        crate::interpreter::eval_expr::spec_args_bound(fr.locals, args),
    ensures
        ({
            let d = fr.jps[jp];
            let n = if d.params.len() < args.len() { d.params.len() } else { args.len() };
            spec_jump_step(fr, jp, args) matches Ok((fr2, b)) && b == d.body && fr2.jps == fr.jps && fr2.prov == fr.prov
                && (forall|j: int|
                0 <= j < n && (forall|k: int| j < k < n ==> d.params[k].var != d.params[j].var) ==> #[trigger] fr2.locals.contains_key(
                    d.params[j].var,
                ) && fr2.locals[d.params[j].var] == crate::interpreter::eval_expr::spec_arg_value(fr.locals, args[j]))
                && forall|x: VarId|
                (forall|j: int| 0 <= j < n ==> d.params[j].var != x) ==> (#[trigger] fr2.locals.contains_key(x)
                    == fr.locals.contains_key(x) && (fr.locals.contains_key(x) ==> fr2.locals[x] == fr.locals[x]))
        }),
{
    let d = fr.jps[jp];
    crate::interpreter::eval_expr::lemma_resolve_bound_args(fr.locals, args);
    let vs = Seq::new(args.len(), |j: int| crate::interpreter::eval_expr::spec_arg_value(fr.locals, args[j]));
    crate::interpreter::stack::lemma_bind_params_meaning(fr.locals, d.params, vs, spec_bound_count(d.params, vs));
}

} // verus!
