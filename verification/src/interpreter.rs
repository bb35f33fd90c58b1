pub mod eval_expr;
pub mod primitives;
pub mod exec_body;
pub mod registry;
pub mod stack;

use vstd::hash_map::StringHashMap;
use vstd::prelude::*;

use crate::interpreter::exec_body::{spec_exec, BodyExecutor, ExecResult, SStep};
use crate::interpreter::primitives::{call_primitive, lookup_primitive, spec_lookup_primitive};
use crate::interpreter::registry::{
    lemma_register_all_none_extend, spec_register, spec_register_all, SRec, ValueRegistry,
};
use crate::interpreter::stack::{spec_bind_params, spec_bound_count, CallFrame, SFrame, SJoinPoint};
use crate::ir_types::{
    clone_body, model_body, spec_body_wf, spec_decl_wf, Arg, Decl, FnBody, JoinPointId, Param, SFnBody, VarId,
};
use crate::primitives::{primitive_defined, spec_eval_primitive, spec_primitive_defined};
use crate::stubs::{eval_stub, spec_eval_stub, spec_stub_defined, Stub};
use crate::trace_check::{
    lemma_extends_trans, lemma_push_step, lemma_steps_valid_extend, spec_extends, spec_lookup, spec_refs_below,
    spec_step_fault, spec_step_refs, spec_steps_valid, spec_steps_valid_from,
};
use crate::trace_types::{model_steps, PrimOp, STraceStep, TraceStep, ValueId};
use crate::value::{clone_values, lemma_view_values, view_values, SValue, Value};

verus! {

/// Why an interpretation stops without a result.
#[derive(Debug, Clone, PartialEq, Eq)]
pub enum InterpError {
    /// A variable is read that the frame does not hold.
    UnboundVariable(VarId),
    /// A jump names a join point that the frame does not hold.
    UnboundJoinPoint(JoinPointId),
    /// A call names a function that is neither a primitive, a stub nor a declaration.
    FunctionNotFound(String),
    /// A primitive is applied to arguments on which it is not defined.
    PrimitiveUndefined(PrimOp),
    /// An extern stub is applied to arguments on which it is not defined.
    StubUndefined(String),
    /// More than the allowed number of nested calls.
    CallDepthExceeded(String),
    /// A function application is evaluated as a plain expression.
    UnexpectedFAp(String),
    /// A closure application whose function value is not a closure.
    ApOnNonClosure,
    /// A scalar is read from a value that has none.
    NotScalar,
    /// An `unreachable` body is executed.
    Unreachable,
    /// A `case` has no alternatives.
    NoMatchingAlt,
    /// The value table cannot take another entry.
    ValueTableFull,
    /// The step budget of the run is used up.
    StepBudgetExhausted,
    /// A scalar offset does not fit the address space.
    OffsetOverflow,
}

/// The model of an interpretation error: names as characters.
pub enum SInterpError {
    UnboundVariable(VarId),
    UnboundJoinPoint(JoinPointId),
    FunctionNotFound(Seq<char>),
    PrimitiveUndefined(PrimOp),
    StubUndefined(Seq<char>),
    CallDepthExceeded(Seq<char>),
    UnexpectedFAp(Seq<char>),
    ApOnNonClosure,
    NotScalar,
    Unreachable,
    NoMatchingAlt,
    ValueTableFull,
    StepBudgetExhausted,
    OffsetOverflow,
}

impl InterpError {
    pub open spec fn model(&self) -> SInterpError {
        match self {
            InterpError::UnboundVariable(v) => SInterpError::UnboundVariable(*v),
            InterpError::UnboundJoinPoint(j) => SInterpError::UnboundJoinPoint(*j),
            InterpError::FunctionNotFound(n) => SInterpError::FunctionNotFound(n@),
            InterpError::PrimitiveUndefined(op) => SInterpError::PrimitiveUndefined(*op),
            InterpError::StubUndefined(n) => SInterpError::StubUndefined(n@),
            InterpError::CallDepthExceeded(n) => SInterpError::CallDepthExceeded(n@),
            InterpError::UnexpectedFAp(n) => SInterpError::UnexpectedFAp(n@),
            InterpError::ApOnNonClosure => SInterpError::ApOnNonClosure,
            InterpError::NotScalar => SInterpError::NotScalar,
            InterpError::Unreachable => SInterpError::Unreachable,
            InterpError::NoMatchingAlt => SInterpError::NoMatchingAlt,
            InterpError::ValueTableFull => SInterpError::ValueTableFull,
            InterpError::StepBudgetExhausted => SInterpError::StepBudgetExhausted,
            InterpError::OffsetOverflow => SInterpError::OffsetOverflow,
        }
    }
}

/// The model of a result that carries a value.
pub open spec fn model_result(r: Result<Value, InterpError>) -> Result<SValue, SInterpError> {
    match r {
        Ok(v) => Ok(v@),
        Err(e) => Err(e.model()),
    }
}

/// The value an argument denotes in a frame.
pub open spec fn spec_resolve_arg(locals: Map<VarId, SValue>, a: Arg) -> Result<SValue, InterpError> {
    match a {
        Arg::Var(v) => if locals.contains_key(v) {
            Ok(locals[v])
        } else {
            Err(InterpError::UnboundVariable(v))
        },
        Arg::Irrelevant => Ok(SValue::Irrelevant),
    }
}

/// The values arguments denote, or the first unbound variable among them.
pub open spec fn spec_resolve_args(locals: Map<VarId, SValue>, args: Seq<Arg>) -> Result<Seq<SValue>, InterpError>
    decreases args.len(),
{
    if args.len() == 0 {
        Ok(Seq::empty())
    } else {
        match spec_resolve_args(locals, args.drop_last()) {
            Err(e) => Err(e),
            Ok(vs) => match spec_resolve_arg(locals, args.last()) {
                Err(e) => Err(e),
                Ok(v) => Ok(vs.push(v)),
            },
        }
    }
}

/// An unbound variable in a prefix of the arguments is the error for all of them.
pub proof fn lemma_resolve_args_err_extend(locals: Map<VarId, SValue>, args: Seq<Arg>, i: int)
    requires
        0 <= i <= args.len(),
        spec_resolve_args(locals, args.take(i)) is Err,
    ensures
        spec_resolve_args(locals, args) == spec_resolve_args(locals, args.take(i)),
    decreases args.len() - i,
{
    if i < args.len() {
        assert(args.take(i + 1).drop_last() =~= args.take(i));
        lemma_resolve_args_err_extend(locals, args, i + 1);
    } else {
        assert(args.take(i) =~= args);
    }
}


broadcast use {lemma_view_values, vstd::std_specs::hash::group_hash_axioms};

/// The deepest nesting of calls an interpretation may reach.
pub const MAX_CALL_DEPTH: usize = 10000;

/// The declarations by name, a later declaration of a name replacing an
/// earlier one.
pub open spec fn spec_decl_map(ds: Seq<Decl>) -> Map<Seq<char>, Decl>
    decreases ds.len(),
{
    if ds.len() == 0 {
        Map::empty()
    } else {
        spec_decl_map(ds.drop_last()).insert(ds.last().spec_name(), ds.last())
    }
}

/// Whether `s` ends with `suffix`.
pub open spec fn spec_ends_with(s: Seq<char>, suffix: Seq<char>) -> bool {
    suffix.len() <= s.len() && s.subrange(s.len() - suffix.len(), s.len() as int) == suffix
}

/// `str::strip_suffix` of std with a string pattern: the part of `s` before
/// `suffix` when `s` ends with it.
#[verifier::external_body]
fn strip_suffix<'a>(s: &'a str, suffix: &str) -> (r: Option<&'a str>)
    ensures
        match r {
            Some(p) => s@ == p@ + suffix@,
            None => !spec_ends_with(s@, suffix@),
        },
{
    s.strip_suffix(suffix)
}

/// What a call gives, and the recording and the budget it leaves.
pub struct SCallOut {
    pub result: Result<SValue, SInterpError>,
    pub rec: SRec,
    pub fuel: nat,
}

/// A primitive applied to arguments where it is defined: its value, with
/// the arguments and then the result registered and a `PrimResult` step
/// recorded.
pub open spec fn spec_apply_primitive(rec: SRec, op: PrimOp, args: Seq<SValue>) -> Result<(SValue, SRec), SInterpError> {
    if !spec_primitive_defined(op, args) {
        Err(SInterpError::PrimitiveUndefined(op))
    } else {
        let v = spec_eval_primitive(op, args);
        match spec_register_all(rec.table, args) {
            None => Err(SInterpError::ValueTableFull),
            Some((t1, ids)) => match spec_register(t1, v) {
                None => Err(SInterpError::ValueTableFull),
                Some((t2, id)) => Ok(
                    (v, SRec { table: t2, steps: rec.steps.push(STraceStep::PrimResult { op, args: ids, result: id }) }),
                ),
            },
        }
    }
}

/// The outcome of a primitive call.
pub open spec fn spec_primitive_out(rec: SRec, op: PrimOp, args: Seq<SValue>, fuel: nat) -> SCallOut {
    match spec_apply_primitive(rec, op, args) {
        Ok((v, rec2)) => SCallOut { result: Ok(v), rec: rec2, fuel },
        Err(e) => SCallOut { result: Err(e), rec, fuel },
    }
}

/// A stub registered under `name` applied to arguments: its value where it
/// is defined. Stubs record nothing.
pub open spec fn spec_apply_stub(stub: Stub, name: Seq<char>, args: Seq<SValue>) -> Result<SValue, SInterpError> {
    if spec_stub_defined(stub, args) {
        Ok(spec_eval_stub(stub, args))
    } else {
        Err(SInterpError::StubUndefined(name))
    }
}

/// The frame a declared function starts in: its parameters bound to the
/// arguments, no join points.
pub open spec fn spec_entry_frame(params: Seq<Param>, args: Seq<SValue>) -> SFrame {
    SFrame {
        locals: spec_bind_params(Map::empty(), params, args, spec_bound_count(params, args)),
        jps: Map::empty(),
        prov: Map::empty(),
    }
}

/// Calling `name` on `args`, against a value table and the steps so far,
/// with a budget of steps, `depth` calls deep: a call costs one step and
/// fails beyond `MAX_CALL_DEPTH`; then a primitive, a stub, or a declared
/// function is run.
pub open spec fn spec_call(
    decls: Map<Seq<char>, Decl>,
    stubs: Map<Seq<char>, Stub>,
    rec: SRec,
    name: Seq<char>,
    args: Seq<SValue>,
    fuel: nat,
    depth: nat,
) -> SCallOut
    decreases fuel, 0int,
{
    if fuel == 0 {
        SCallOut { result: Err(SInterpError::StepBudgetExhausted), rec, fuel: 0 }
    } else if depth >= MAX_CALL_DEPTH {
        SCallOut { result: Err(SInterpError::CallDepthExceeded(name)), rec, fuel }
    } else {
        spec_call_inner(decls, stubs, rec, name, args, (fuel - 1) as nat, depth + 1)
    }
}

/// What a name denotes, in this order: a primitive, a registered stub, an
/// extern declaration, a function whose body is run.
pub open spec fn spec_call_inner(
    decls: Map<Seq<char>, Decl>,
    stubs: Map<Seq<char>, Stub>,
    rec: SRec,
    name: Seq<char>,
    args: Seq<SValue>,
    fuel: nat,
    depth: nat,
) -> SCallOut
    decreases fuel, 2int,
{
    match spec_lookup_primitive(name) {
        Some(op) => spec_primitive_out(rec, op, args, fuel),
        None => if stubs.contains_key(name) {
            SCallOut { result: spec_apply_stub(stubs[name], name, args), rec, fuel }
        } else if !decls.contains_key(name) {
            SCallOut { result: Err(SInterpError::FunctionNotFound(name)), rec, fuel }
        } else {
            match decls[name] {
                Decl::ExternDecl { .. } => spec_call_extern(
                    decls,
                    stubs,
                    rec,
                    decls[name].spec_name(),
                    args,
                    fuel,
                    depth,
                ),
                Decl::FnDecl { params, body, .. } => spec_run(
                    decls,
                    stubs,
                    spec_entry_frame(params@, args),
                    rec,
                    model_body(body),
                    fuel,
                    depth,
                ),
            }
        },
    }
}

/// An extern declaration without a stub: a `._boxed` wrapper runs the
/// declaration, primitive or stub it wraps (`Irrelevant` if there is none);
/// anything else gives `Irrelevant`.
pub open spec fn spec_call_extern(
    decls: Map<Seq<char>, Decl>,
    stubs: Map<Seq<char>, Stub>,
    rec: SRec,
    dname: Seq<char>,
    args: Seq<SValue>,
    fuel: nat,
    depth: nat,
) -> SCallOut
    decreases fuel, 1int,
{
    if spec_ends_with(dname, "._boxed"@) {
        let base = dname.subrange(0, dname.len() - "._boxed"@.len());
        if decls.contains_key(base) {
            spec_call(decls, stubs, rec, base, args, fuel, depth)
        } else {
            match spec_lookup_primitive(base) {
                Some(op) => spec_primitive_out(rec, op, args, fuel),
                None => if stubs.contains_key(base) {
                    SCallOut { result: spec_apply_stub(stubs[base], base, args), rec, fuel }
                } else {
                    SCallOut { result: Ok(SValue::Irrelevant), rec, fuel }
                },
            }
        }
    } else {
        SCallOut { result: Ok(SValue::Irrelevant), rec, fuel }
    }
}

/// Running a body to its result: each round costs a step and runs the body
/// to its next call or return; a call is made and the body after it goes on
/// with the call's result bound. (By `lemma_exec_fuel` and `lemma_call_fuel`
/// no run or call leaves more budget than it was given, so the `else 0`
/// branches, which make the definition well founded, are never taken.)
pub open spec fn spec_run(
    decls: Map<Seq<char>, Decl>,
    stubs: Map<Seq<char>, Stub>,
    fr: SFrame,
    rec: SRec,
    body: SFnBody,
    fuel: nat,
    depth: nat,
) -> SCallOut
    decreases fuel, 0int,
{
    if fuel == 0 {
        SCallOut { result: Err(SInterpError::StepBudgetExhausted), rec, fuel: 0 }
    } else {
        let out = spec_exec(fr, rec, body, (fuel - 1) as nat);
        let f1: nat = if out.fuel < fuel {
            out.fuel
        } else {
            0
        };
        match out.result {
            Err(e) => SCallOut { result: Err(e), rec: out.rec, fuel: f1 },
            Ok(SStep::Return(v)) => SCallOut { result: Ok(v), rec: out.rec, fuel: f1 },
            Ok(SStep::Call { target, args, result_var, cont }) => {
                let c = spec_call(decls, stubs, out.rec, target, args, f1, depth);
                let f2: nat = if c.fuel <= f1 {
                    c.fuel
                } else {
                    0
                };
                match c.result {
                    Err(e) => SCallOut { result: Err(e), rec: c.rec, fuel: f2 },
                    Ok(v) => spec_run(
                        decls,
                        stubs,
                        SFrame { locals: out.frame.locals.insert(result_var, v), jps: out.frame.jps, prov: out.frame.prov },
                        c.rec,
                        cont,
                        f2,
                        depth,
                    ),
                }
            },
        }
    }
}

/// A call never leaves more budget than it was given.
pub proof fn lemma_call_fuel(
    decls: Map<Seq<char>, Decl>,
    stubs: Map<Seq<char>, Stub>,
    rec: SRec,
    name: Seq<char>,
    args: Seq<SValue>,
    fuel: nat,
    depth: nat,
)
    ensures
        spec_call(decls, stubs, rec, name, args, fuel, depth).fuel <= fuel,
    decreases fuel, 0int,
{
    if fuel > 0 && depth < MAX_CALL_DEPTH {
        lemma_call_inner_fuel(decls, stubs, rec, name, args, (fuel - 1) as nat, depth + 1);
    }
}

proof fn lemma_call_inner_fuel(
    decls: Map<Seq<char>, Decl>,
    stubs: Map<Seq<char>, Stub>,
    rec: SRec,
    name: Seq<char>,
    args: Seq<SValue>,
    fuel: nat,
    depth: nat,
)
    ensures
        spec_call_inner(decls, stubs, rec, name, args, fuel, depth).fuel <= fuel,
    decreases fuel, 2int,
{
    if spec_lookup_primitive(name) is None && !stubs.contains_key(name) && decls.contains_key(name) {
        match decls[name] {
            Decl::ExternDecl { .. } => lemma_call_extern_fuel(decls, stubs, rec, decls[name].spec_name(), args, fuel, depth),
            Decl::FnDecl { params, body, .. } => lemma_run_fuel(
                decls,
                stubs,
                spec_entry_frame(params@, args),
                rec,
                model_body(body),
                fuel,
                depth,
            ),
        }
    }
}

proof fn lemma_call_extern_fuel(
    decls: Map<Seq<char>, Decl>,
    stubs: Map<Seq<char>, Stub>,
    rec: SRec,
    dname: Seq<char>,
    args: Seq<SValue>,
    fuel: nat,
    depth: nat,
)
    ensures
        spec_call_extern(decls, stubs, rec, dname, args, fuel, depth).fuel <= fuel,
    decreases fuel, 1int,
{
    let base = dname.subrange(0, dname.len() - "._boxed"@.len());
    if spec_ends_with(dname, "._boxed"@) && decls.contains_key(base) {
        lemma_call_fuel(decls, stubs, rec, base, args, fuel, depth);
    }
}

/// Running a body to its result never leaves more budget than it was given.
pub proof fn lemma_run_fuel(
    decls: Map<Seq<char>, Decl>,
    stubs: Map<Seq<char>, Stub>,
    fr: SFrame,
    rec: SRec,
    body: SFnBody,
    fuel: nat,
    depth: nat,
)
    ensures
        spec_run(decls, stubs, fr, rec, body, fuel, depth).fuel <= fuel,
    decreases fuel, 0int,
{
    if fuel > 0 {
        let out = spec_exec(fr, rec, body, (fuel - 1) as nat);
        let f1: nat = if out.fuel < fuel {
            out.fuel
        } else {
            0
        };
        match out.result {
            Ok(SStep::Call { target, args, result_var, cont }) => {
                let c = spec_call(decls, stubs, out.rec, target, args, f1, depth);
                let f2: nat = if c.fuel <= f1 {
                    c.fuel
                } else {
                    0
                };
                match c.result {
                    Ok(v) => lemma_run_fuel(
                        decls,
                        stubs,
                        SFrame { locals: out.frame.locals.insert(result_var, v), jps: out.frame.jps, prov: out.frame.prov },
                        c.rec,
                        cont,
                        f2,
                        depth,
                    ),
                    Err(_) => {},
                }
            },
            _ => {},
        }
    }
}

/// Whether a call agrees with its model: the same result and budget left,
/// and on success the same recording.
pub open spec fn spec_call_agrees(out: SCallOut, r: Result<Value, InterpError>, fuel: u64, rec: SRec) -> bool {
    match r {
        Err(e) => out.result == Err::<SValue, SInterpError>(e.model()) && out.fuel == fuel,
        Ok(v) => out.result == Ok::<SValue, SInterpError>(v@) && out.fuel == fuel && out.rec == rec,
    }
}

/// An interpreter of a λRC IR program that records, for every computation
/// it makes, a step that a verifier can check against the value table.
pub struct Interpreter {
    pub decls: StringHashMap<Decl>,
    pub trace_steps: Vec<TraceStep>,
    pub value_registry: ValueRegistry,
    /// The number of calls in progress.
    pub call_depth: usize,
    pub extern_stubs: StringHashMap<Stub>,
    /// Body steps and calls still allowed in this run.
    pub fuel: u64,
}

impl Interpreter {
    /// The value table and the recorded steps, by their models (the
    /// declarations, stubs, depth and budget are stated apart).
    pub open spec fn rec(&self) -> SRec {
        SRec { table: view_values(self.value_registry.table@), steps: model_steps(self.trace_steps@) }
    }

    /// Every declaration has well-formed field indices.
    pub open spec fn spec_decls_wf(&self) -> bool {
        forall|k: Seq<char>| #[trigger] self.decls@.contains_key(k) ==> spec_decl_wf(self.decls@[k])
    }

    /// The interpreter's invariant: every id a recorded step names is in the
    /// value table, which holds no value twice.
    pub open spec fn spec_inv(&self) -> bool {
        &&& spec_refs_below(self.trace_steps@, self.value_registry.table@.len())
        &&& self.value_registry.spec_wf()
    }

    /// Every step recorded from the `n`-th on checks out against the value
    /// table.
    pub open spec fn spec_valid_from(&self, n: int) -> bool {
        spec_steps_valid_from(view_values(self.value_registry.table@), self.trace_steps@, n)
    }

    /// What a run keeps of an earlier state: the declarations and stubs, and
    /// the value table and the recorded steps, which it only extends; the
    /// budget only shrinks and the number of calls in progress is as it was.
    /// When the declarations have field indices that fit 16 bits, the steps
    /// it records check out against the value table, and so do the earlier
    /// ones from any point on where they did.
    pub open spec fn spec_keeps(&self, old: &Self) -> bool {
        &&& self.decls@ == old.decls@
        &&& self.extern_stubs@ == old.extern_stubs@
        &&& spec_extends(view_values(old.value_registry.table@), view_values(self.value_registry.table@))
        &&& self.trace_steps@.len() >= old.trace_steps@.len()
        &&& self.trace_steps@.subrange(0, old.trace_steps@.len() as int) == old.trace_steps@
        &&& self.fuel <= old.fuel
        &&& self.call_depth == old.call_depth
        &&& (old.spec_decls_wf() ==> forall|n: int| #[trigger] old.spec_valid_from(n) ==> self.spec_valid_from(n))
    }

    /// An interpreter of the given declarations, with no stubs, no steps, an
    /// empty value table and an unbounded budget.
    pub fn new(decls: Vec<Decl>) -> (r: Self)
        ensures
            r.decls@ == spec_decl_map(decls@),
            r.extern_stubs@ == Map::<Seq<char>, Stub>::empty(),
            r.trace_steps@.len() == 0,
            r.value_registry.table@.len() == 0,
            r.call_depth == 0,
            r.fuel == u64::MAX,
            r.spec_inv(),
            (forall|i: int| 0 <= i < decls@.len() ==> spec_decl_wf(#[trigger] decls@[i])) ==> r.spec_decls_wf(),
    {
        let ghost all = decls@;
        let mut rest = decls;
        let mut map: StringHashMap<Decl> = StringHashMap::new();
        while rest.len() > 0
            invariant
                all.len() >= rest@.len(),
                rest@ == all.subrange(0, rest@.len() as int),
                spec_decl_map(all) == spec_decl_map(rest@).union_prefer_right(map@),
                (forall|i: int| 0 <= i < all.len() ==> spec_decl_wf(#[trigger] all[i])) ==> forall|k: Seq<char>|
                    #[trigger] map@.contains_key(k) ==> spec_decl_wf(map@[k]),
            decreases rest@.len(),
        {
            let ghost before = rest@;
            let ghost m0 = map@;
            let d = rest.pop().unwrap();
            proof {
                assert(before.drop_last() =~= rest@);
                assert(d == all[rest@.len() as int]);
            }
            let key = d.name().to_owned();
            if !map.contains_key(key.as_str()) {
                map.insert(key, d);
                proof {
                    assert(spec_decl_map(rest@).insert(d.spec_name(), d).union_prefer_right(m0) =~= spec_decl_map(
                        rest@,
                    ).union_prefer_right(map@));
                }
            } else {
                proof {
                    assert(spec_decl_map(rest@).insert(d.spec_name(), d).union_prefer_right(m0) =~= spec_decl_map(
                        rest@,
                    ).union_prefer_right(map@));
                }
            }
        }
        proof {
            assert(spec_decl_map(rest@) =~= Map::<Seq<char>, Decl>::empty());
            assert(spec_decl_map(all) =~= map@);
        }
        let r = Interpreter {
            decls: map,
            trace_steps: Vec::new(),
            value_registry: ValueRegistry::new(),
            call_depth: 0,
            extern_stubs: StringHashMap::new(),
            fuel: u64::MAX,
        };
        proof {
            assert(view_values(r.value_registry.table@).len() == 0);
        }
        r
    }

    /// Makes calls of `name` run `stub` natively.
    pub fn register_extern_stub(&mut self, name: &str, stub: Stub)
        ensures
            final(self).extern_stubs@ == old(self).extern_stubs@.insert(name@, stub),
            final(self).decls@ == old(self).decls@,
            final(self).trace_steps == old(self).trace_steps,
            final(self).value_registry == old(self).value_registry,
            final(self).call_depth == old(self).call_depth,
            final(self).fuel == old(self).fuel,
    {
        self.extern_stubs.insert(name.to_owned(), stub);
    }

    /// The id of a value in the table, adding it if needed.
    pub fn register_value(&mut self, v: &Value) -> (r: Result<ValueId, InterpError>)
        requires
            old(self).spec_inv(),
        ensures
            final(self).spec_inv(),
            final(self).spec_keeps(old(self)),
            final(self).trace_steps == old(self).trace_steps,
            final(self).fuel == old(self).fuel,
            match r {
                Ok(id) => (id as int) < final(self).value_registry.table@.len()
                    && final(self).value_registry.table@[id as int]@ == v@,
                Err(e) => e == InterpError::ValueTableFull,
            },
            old(self).value_registry.table@.len() < u32::MAX ==> r is Ok,
            match spec_register(view_values(old(self).value_registry.table@), v@) {
                None => r is Err,
                Some((t, id)) => r == Ok::<ValueId, InterpError>(id) && view_values(final(self).value_registry.table@) == t,
            },
            forall|k: int|
                0 <= k < old(self).value_registry.table@.len() && #[trigger] old(self).value_registry.table@[k]@ == v@
                    ==> r == Ok::<ValueId, InterpError>(k as u32) && final(self).value_registry.table@ == old(
                    self,
                ).value_registry.table@,
    {
        let ghost before = self.value_registry.table@;
        let r = self.value_registry.register(v);
        proof {
            assert forall|k: int|
                0 <= k < before.len() && #[trigger] before[k]@ == v@ implies r == Some(k as u32) by {
                assert(self.value_registry.table@ == before);
                let id = r->Some_0;
                if id as int != k {
                    if (id as int) < k {
                        assert(self.value_registry.table@[id as int]@ != self.value_registry.table@[k]@);
                    } else {
                        assert(self.value_registry.table@[k]@ != self.value_registry.table@[id as int]@);
                    }
                }
            }
        }
        proof {
            assert(spec_extends(view_values(before), view_values(self.value_registry.table@))) by {
                assert forall|k: int| 0 <= k < view_values(before).len() implies #[trigger] view_values(
                    self.value_registry.table@,
                )[k] == view_values(before)[k] by {
                    assert(self.value_registry.table@[k] == before[k]);
                }
            }
            lemma_steps_valid_extend(view_values(before), view_values(self.value_registry.table@), self.trace_steps@);
            assert(view_values(before).len() == before.len());
            assert(view_values(self.value_registry.table@).len() == self.value_registry.table@.len());
            assert(self.trace_steps@.subrange(0, self.trace_steps@.len() as int) =~= self.trace_steps@);
            assert(spec_refs_below(self.trace_steps@, before.len()));
            assert(spec_refs_below(self.trace_steps@, self.value_registry.table@.len()));
            assert(self.decls@ == old(self).decls@);
            assert(self.value_registry.spec_wf());
        }
        match r {
            Some(id) => Ok(id),
            None => Err(InterpError::ValueTableFull),
        }
    }

    /// Registers the arguments and the result of a primitive and records the
    /// step that ties them.
    fn record_primitive(&mut self, op: &PrimOp, args: &Vec<Value>, result: &Value) -> (r: Result<(), InterpError>)
        requires
            old(self).spec_inv(),
            spec_primitive_defined(*op, view_values(args@)),
            result@ == spec_eval_primitive(*op, view_values(args@)),
        ensures
            final(self).spec_inv(),
            final(self).spec_keeps(old(self)),
            final(self).fuel == old(self).fuel,
            r is Err ==> r == Err::<(), InterpError>(InterpError::ValueTableFull),
            match spec_register_all(old(self).rec().table, view_values(args@)) {
                None => r is Err,
                Some((t1, ids)) => match spec_register(t1, result@) {
                    None => r is Err,
                    Some((t2, id)) => r is Ok && final(self).rec() == (SRec {
                        table: t2,
                        steps: old(self).rec().steps.push(STraceStep::PrimResult { op: *op, args: ids, result: id }),
                    }),
                },
            },
    {
        let ghost s0 = *self;
        let ghost start = view_values(self.value_registry.table@);
        let ghost vals = view_values(args@);
        proof {
            lemma_keeps_refl(*self);
        }
        let mut ids: Vec<ValueId> = Vec::new();
        let mut i: usize = 0;
        while i < args.len()
            invariant
                i <= args@.len(),
                ids@.len() == i,
                self.spec_inv(),
                self.spec_keeps(old(self)),
                self.fuel == old(self).fuel,
                forall|j: int| 0 <= j < i ==> (#[trigger] ids@[j] as int) < self.value_registry.table@.len()
                    && self.value_registry.table@[ids@[j] as int]@ == args@[j]@,
                start == view_values(old(self).value_registry.table@),
                vals == view_values(args@),
                self.trace_steps == old(self).trace_steps,
                spec_register_all(start, vals.take(i as int)) == Some((view_values(self.value_registry.table@), ids@)),
            decreases args@.len() - i,
        {
            proof {
                assert(vals.take(i + 1).drop_last() =~= vals.take(i as int));
                assert(vals.take(i + 1).last() == args@[i as int]@);
            }
            let ghost s1 = *self;
            let rid = self.register_value(&args[i]);
            proof {
                lemma_keeps_trans(*old(self), s1, *self);
            }
            let id = match rid {
                Ok(id) => id,
                Err(e) => {
                    proof {
                        lemma_register_all_none_extend(start, vals, i + 1);
                    }
                    return Err(e);
                },
            };
            proof {
                assert forall|j: int| 0 <= j < i implies (#[trigger] ids@[j] as int) < self.value_registry.table@.len()
                    && self.value_registry.table@[ids@[j] as int]@ == args@[j]@ by {
                    assert(view_values(self.value_registry.table@)[ids@[j] as int] == view_values(
                        s1.value_registry.table@,
                    )[ids@[j] as int]);
                }
            }
            ids.push(id);
            i = i + 1;
        }
        let ghost s2 = *self;
        proof {
            assert(vals.take(args@.len() as int) =~= vals);
        }
        let rid = self.register_value(result);
        proof {
            lemma_keeps_trans(s0, s2, *self);
        }
        let rid = rid?;
        proof {
            let t = view_values(self.value_registry.table@);
            assert forall|j: int| 0 <= j < ids@.len() implies (#[trigger] ids@[j] as int) < t.len() && t[ids@[j] as int]
                == args@[j]@ by {
                assert(t[ids@[j] as int] == view_values(s2.value_registry.table@)[ids@[j] as int]);
            }
            assert(spec_lookup(t, ids@) =~= view_values(args@));
        }
        let step = TraceStep::PrimResult { op: *op, args: ids, result: rid };
        proof {
            let t = view_values(self.value_registry.table@);
            assert(t.len() == self.value_registry.table@.len());
            assert forall|j: int| 0 <= j < spec_step_refs(step).len() implies (#[trigger] spec_step_refs(step)[j]) < t.len() by {
                if j < ids@.len() {
                    assert(spec_step_refs(step)[j] == ids@[j]);
                }
            }
            assert(spec_step_fault(t, step) is None);
            lemma_push_step(t, self.trace_steps@, step);
        }
        let ghost before = self.trace_steps@;
        let ghost m = step.model();
        let ghost st = step;
        self.trace_steps.push(step);
        proof {
            let t = view_values(self.value_registry.table@);
            assert(self.trace_steps@ == before.push(st));
            assert(spec_refs_below(self.trace_steps@, self.value_registry.table@.len()));
            assert(self.decls@ == old(self).decls@);
            assert(model_steps(self.trace_steps@) =~= model_steps(before).push(m));
            assert(self.trace_steps@.subrange(0, s0.trace_steps@.len() as int) =~= before.subrange(
                0,
                s0.trace_steps@.len() as int,
            ));
        }
        Ok(())
    }

    /// Applies a primitive to arguments and records the step.
    fn apply_primitive(&mut self, op: &PrimOp, args: Vec<Value>) -> (r: Result<Value, InterpError>)
        requires
            old(self).spec_inv(),
        ensures
            final(self).spec_inv(),
            final(self).spec_keeps(old(self)),
            final(self).fuel == old(self).fuel,
            match r {
                Ok(v) => spec_apply_primitive(old(self).rec(), *op, view_values(args@)) == Ok::<
                    (SValue, SRec),
                    SInterpError,
                >((v@, final(self).rec())),
                Err(e) => spec_apply_primitive(old(self).rec(), *op, view_values(args@)) == Err::<
                    (SValue, SRec),
                    SInterpError,
                >(e.model()),
            },
    {
        if !primitive_defined(op, args.as_slice()) {
            proof {
                lemma_keeps_refl(*self);
            }
            return Err(InterpError::PrimitiveUndefined(*op));
        }
        let result = call_primitive(op, clone_values(&args));
        self.record_primitive(op, &args, &result)?;
        Ok(result)
    }

    /// Calls a function: a primitive, a stub, or a declared function whose
    /// body is interpreted. A call made while `MAX_CALL_DEPTH` calls are in
    /// progress fails before it does anything else; every call, however it
    /// ends, leaves the number of calls in progress as it found it. When the
    /// declarations' field indices fit 16 bits, every step the call records
    /// checks out against the value table, whatever was recorded before.
    #[verifier::rlimit(30)]
    pub fn call_function(&mut self, name: &str, args: Vec<Value>) -> (r: Result<Value, InterpError>)
        requires
            old(self).spec_inv(),
        ensures
            final(self).spec_inv(),
            final(self).spec_keeps(old(self)),
            old(self).spec_decls_wf() ==> final(self).spec_valid_from(old(self).trace_steps@.len() as int),
            final(self).call_depth == old(self).call_depth,
            old(self).call_depth >= MAX_CALL_DEPTH && old(self).fuel > 0 ==> (r matches Err(
                InterpError::CallDepthExceeded(n),
            ) && n@ == name@) && final(self).rec() == old(self).rec() && final(self).fuel == old(self).fuel,
            spec_call_agrees(
                spec_call(
                    old(self).decls@,
                    old(self).extern_stubs@,
                    old(self).rec(),
                    name@,
                    view_values(args@),
                    old(self).fuel as nat,
                    old(self).call_depth as nat,
                ),
                r,
                final(self).fuel,
                final(self).rec(),
            ),
        decreases old(self).fuel, 0int,
    {
        proof {
            assert(self.spec_valid_from(self.trace_steps@.len() as int));
        }
        if self.fuel == 0 {
            proof {
                lemma_keeps_refl(*self);
            }
            return Err(InterpError::StepBudgetExhausted);
        }
        if self.call_depth >= MAX_CALL_DEPTH {
            proof {
                lemma_keeps_refl(*self);
            }
            return Err(InterpError::CallDepthExceeded(name.to_owned()));
        }
        let ghost s0 = *self;
        self.fuel = self.fuel - 1;
        self.call_depth = self.call_depth + 1;
        proof {
            assert(self.decls == s0.decls);
            assert(self.spec_inv());
        }
        let ghost s0b = *self;
        let r = self.call_function_inner(name, args);
        let ghost s1 = *self;
        self.call_depth = self.call_depth - 1;
        proof {
            assert forall|n: int| #[trigger] old(self).spec_valid_from(n) && old(self).spec_decls_wf() implies self.spec_valid_from(n) by {
                assert(s0b.spec_decls_wf() == old(self).spec_decls_wf());
                assert(s0b.spec_valid_from(n));
                assert(s1.spec_valid_from(n));
            }
            assert(self.trace_steps@.subrange(0, s0.trace_steps@.len() as int) == s0.trace_steps@);
            assert(self.decls@ == s1.decls@);
            assert(self.spec_decls_wf() == s1.spec_decls_wf());
        }
        r
    }

    fn call_function_inner(&mut self, name: &str, args: Vec<Value>) -> (r: Result<Value, InterpError>)
        requires
            old(self).spec_inv(),
        ensures
            final(self).spec_inv(),
            final(self).spec_keeps(old(self)),
            spec_call_agrees(
                spec_call_inner(
                    old(self).decls@,
                    old(self).extern_stubs@,
                    old(self).rec(),
                    name@,
                    view_values(args@),
                    old(self).fuel as nat,
                    old(self).call_depth as nat,
                ),
                r,
                final(self).fuel,
                final(self).rec(),
            ),
        decreases old(self).fuel, 2int,
    {
        if let Some(op) = lookup_primitive(name) {
            return self.apply_primitive(&op, args);
        }
        match self.extern_stubs.get(name) {
            Some(stub) => {
                let stub = *stub;
                proof {
                    lemma_keeps_refl(*self);
                }
                return match eval_stub(&stub, args.as_slice()) {
                    Some(v) => Ok(v),
                    None => Err(InterpError::StubUndefined(name.to_owned())),
                };
            },
            None => {},
        }
        let (fn_name, params, body) = match self.decls.get(name) {
            None => {
                proof {
                    lemma_keeps_refl(*self);
                }
                return Err(InterpError::FunctionNotFound(name.to_owned()));
            },
            Some(Decl::ExternDecl { name: dname, .. }) => {
                let dname = dname.clone();
                return self.call_extern(dname.as_str(), args);
            },
            Some(Decl::FnDecl { name: fn_name, params, body, .. }) => {
                proof {
                    if self.spec_decls_wf() {
                        assert(spec_decl_wf(self.decls@[name@]));
                    }
                }
                (fn_name.clone(), crate::ir_types::clone_params(params), clone_body(body))
            },
        };
        let ghost vals = view_values(args@);
        let mut frame = CallFrame::new(fn_name);
        proof {
            assert(frame.model().locals =~= Map::<VarId, SValue>::empty());
            assert(frame.model().jps =~= Map::<JoinPointId, SJoinPoint>::empty());
        }
        let mut i: usize = 0;
        while i < params.len() && i < args.len()
            invariant
                frame.spec_wf(),
                i <= params@.len(),
                i <= args@.len(),
                vals == view_values(args@),
                frame.model() == (SFrame {
                    locals: spec_bind_params(Map::empty(), params@, vals, i as nat),
                    jps: Map::empty(),
                    prov: Map::empty(),
                }),
            decreases params@.len() - i,
        {
            frame.set_var(params[i].var, args[i].clone_value());
            i = i + 1;
        }
        proof {
            assert(frame.model() == spec_entry_frame(params@, vals));
        }
        self.exec_with_continuations(frame, body)
    }

    /// An extern declaration without a stub: a `._boxed` wrapper runs the
    /// function, primitive or stub it wraps; anything else gives `Irrelevant`.
    fn call_extern(&mut self, dname: &str, args: Vec<Value>) -> (r: Result<Value, InterpError>)
        requires
            old(self).spec_inv(),
        ensures
            final(self).spec_inv(),
            final(self).spec_keeps(old(self)),
            spec_call_agrees(
                spec_call_extern(
                    old(self).decls@,
                    old(self).extern_stubs@,
                    old(self).rec(),
                    dname@,
                    view_values(args@),
                    old(self).fuel as nat,
                    old(self).call_depth as nat,
                ),
                r,
                final(self).fuel,
                final(self).rec(),
            ),
        decreases old(self).fuel, 1int,
    {
        match strip_suffix(dname, "._boxed") {
            Some(base) => {
                proof {
                    assert(dname@.subrange(dname@.len() - "._boxed"@.len(), dname@.len() as int) =~= "._boxed"@);
                    assert(base@ =~= dname@.subrange(0, dname@.len() - "._boxed"@.len()));
                }
                if self.decls.contains_key(base) {
                    return self.call_function(base, args);
                }
                if let Some(op) = lookup_primitive(base) {
                    return self.apply_primitive(&op, args);
                }
                proof {
                    lemma_keeps_refl(*self);
                }
                match self.extern_stubs.get(base) {
                    Some(stub) => {
                        let stub = *stub;
                        match eval_stub(&stub, args.as_slice()) {
                            Some(v) => Ok(v),
                            None => Err(InterpError::StubUndefined(base.to_owned())),
                        }
                    },
                    None => Ok(Value::Irrelevant),
                }
            },
            None => {
                proof {
                    lemma_keeps_refl(*self);
                }
                Ok(Value::Irrelevant)
            },
        }
    }

    /// Runs a body to its result, making the calls it reaches and continuing
    /// after each with the call's result bound.
    #[verifier::loop_isolation(false)]
    #[verifier::rlimit(40)]
    fn exec_with_continuations(&mut self, frame: CallFrame, body: FnBody) -> (r: Result<Value, InterpError>)
        requires
            old(self).spec_inv(),
            old(self).spec_decls_wf() ==> frame.spec_wf() && spec_body_wf(body),
        ensures
            final(self).spec_inv(),
            final(self).spec_keeps(old(self)),
            spec_call_agrees(
                spec_run(
                    old(self).decls@,
                    old(self).extern_stubs@,
                    frame.model(),
                    old(self).rec(),
                    model_body(body),
                    old(self).fuel as nat,
                    old(self).call_depth as nat,
                ),
                r,
                final(self).fuel,
                final(self).rec(),
            ),
        decreases old(self).fuel, 0int,
    {
        let ghost decls = self.decls@;
        let ghost stubs = self.extern_stubs@;
        let ghost depth = self.call_depth as nat;
        let ghost target = spec_run(decls, stubs, frame.model(), self.rec(), model_body(body), self.fuel as nat, depth);
        let mut frame = frame;
        let mut current = body;
        proof {
            lemma_keeps_refl(*self);
        }
        loop
            invariant
                self.spec_inv(),
                self.spec_decls_wf() ==> frame.spec_wf() && spec_body_wf(current),
                self.spec_keeps(old(self)),
                decls == old(self).decls@,
                stubs == old(self).extern_stubs@,
                depth == old(self).call_depth as nat,
                spec_run(decls, stubs, frame.model(), self.rec(), model_body(current), self.fuel as nat, depth) == target,
            decreases self.fuel,
        {
            if self.fuel == 0 {
                return Err(InterpError::StepBudgetExhausted);
            }
            let ghost s0 = *self;
            let ghost fr0 = frame.model();
            let ghost cur0 = model_body(current);
            let ghost rec0 = self.rec();
            self.fuel = self.fuel - 1;
            let mut steps: Vec<TraceStep> = Vec::new();
            std::mem::swap(&mut steps, &mut self.trace_steps);
            let mut registry = ValueRegistry::new();
            std::mem::swap(&mut registry, &mut self.value_registry);
            let mut executor = BodyExecutor { frame, trace_steps: steps, value_registry: registry, fuel: self.fuel };
            let ghost ex0 = executor;
            let result = executor.exec(&current);
            let BodyExecutor { frame: f, trace_steps, value_registry, fuel } = executor;
            frame = f;
            self.trace_steps = trace_steps;
            self.value_registry = value_registry;
            self.fuel = fuel;
            let ghost s1 = *self;
            let ghost out = spec_exec(fr0, rec0, cur0, (s0.fuel - 1) as nat);
            proof {
                assert(s1.decls == s0.decls);
                assert(s1.spec_decls_wf() == s0.spec_decls_wf());
                assert(s1.spec_inv());
                assert forall|n: int| #[trigger] old(self).spec_valid_from(n) && old(self).spec_decls_wf() implies s1.spec_valid_from(n) by {
                    assert(s0.spec_valid_from(n));
                    assert(ex0.spec_valid_from(n));
                }
                lemma_extends_trans(
                    view_values(old(self).value_registry.table@),
                    view_values(s0.value_registry.table@),
                    view_values(s1.value_registry.table@),
                );
                assert(s1.trace_steps@.subrange(0, old(self).trace_steps@.len() as int) =~= s0.trace_steps@.subrange(
                    0,
                    old(self).trace_steps@.len() as int,
                ));
                assert(s1.spec_keeps(old(self)));
                assert(target == spec_run(decls, stubs, fr0, rec0, cur0, s0.fuel as nat, depth));
            }
            match result {
                Err(e) => {
                    return Err(e);
                },
                Ok(ExecResult::Return(v)) => {
                    return Ok(v);
                },
                Ok(ExecResult::Call { target: callee, args, result_var, cont }) => {
                    let ghost f1 = self.fuel;
                    let ghost call_args = view_values(args@);
                    let v = self.call_function(callee.as_str(), args);
                    proof {
                        lemma_keeps_trans(*old(self), s1, *self);
                        assert(out.result == Ok::<SStep, SInterpError>(
                            SStep::Call { target: callee@, args: call_args, result_var, cont: model_body(cont) },
                        ));
                    }
                    let v = v?;
                    frame.set_var(result_var, v);
                    current = cont;
                    proof {
                        assert(spec_run(decls, stubs, frame.model(), self.rec(), model_body(current), self.fuel as nat, depth)
                            == target);
                    }
                },
            }
        }
    }
}

/// Every state keeps itself.
proof fn lemma_keeps_refl(a: Interpreter)
    ensures
        a.spec_keeps(&a),
{
    assert(a.trace_steps@.subrange(0, a.trace_steps@.len() as int) =~= a.trace_steps@);
}

/// What a run keeps of a state, a later run keeps too.
proof fn lemma_keeps_trans(a: Interpreter, b: Interpreter, c: Interpreter)
    requires
        b.spec_keeps(&a),
        c.spec_keeps(&b),
    ensures
        c.spec_keeps(&a),
{
    lemma_extends_trans(
        view_values(a.value_registry.table@),
        view_values(b.value_registry.table@),
        view_values(c.value_registry.table@),
    );
    assert(c.trace_steps@.subrange(0, a.trace_steps@.len() as int) =~= b.trace_steps@.subrange(
        0,
        a.trace_steps@.len() as int,
    ));
    if a.spec_decls_wf() {
        assert(b.spec_decls_wf() == a.spec_decls_wf());
        assert forall|n: int| #[trigger] a.spec_valid_from(n) implies c.spec_valid_from(n) by {
            assert(b.spec_valid_from(n));
        }
    }
}


/// Calling an extern declaration: one named `f._boxed` runs `f` (a declared
/// function, else the primitive or stub of that name) and otherwise gives
/// `Irrelevant`; any other extern gives `Irrelevant`. Nothing is recorded
/// for an extern that gives `Irrelevant`.
pub proof fn lemma_extern_calls(
    decls: Map<Seq<char>, Decl>,
    stubs: Map<Seq<char>, Stub>,
    rec: SRec,
    base: Seq<char>,
    dname: Seq<char>,
    args: Seq<SValue>,
    fuel: nat,
    depth: nat,
)
    ensures
        ({
            let boxed = base + "._boxed"@;
            let out = spec_call_extern(decls, stubs, rec, boxed, args, fuel, depth);
            &&& decls.contains_key(base) ==> out == spec_call(decls, stubs, rec, base, args, fuel, depth)
            &&& !decls.contains_key(base) && spec_lookup_primitive(base) is None && !stubs.contains_key(base) ==> out
                == (SCallOut { result: Ok(SValue::Irrelevant), rec, fuel })
            &&& !decls.contains_key(base) && spec_lookup_primitive(base) is None && stubs.contains_key(base) ==> out.rec
                == rec && out.result == spec_apply_stub(stubs[base], base, args)
            &&& !spec_ends_with(dname, "._boxed"@) ==> spec_call_extern(decls, stubs, rec, dname, args, fuel, depth)
                == (SCallOut { result: Ok(SValue::Irrelevant), rec, fuel })
        }),
{
    let boxed = base + "._boxed"@;
    assert(boxed.subrange(boxed.len() - "._boxed"@.len(), boxed.len() as int) =~= "._boxed"@);
    assert(boxed.subrange(0, boxed.len() - "._boxed"@.len()) =~= base);
}

/// Calling a name that is neither a primitive nor a registered stub: an
/// undeclared one fails naming it; a declared function runs its body in a
/// frame that binds its parameters to the arguments, one budget step and one
/// call level deeper. Calling with no budget left, or `MAX_CALL_DEPTH`
/// calls deep, fails at once.
pub proof fn lemma_declared_calls(
    decls: Map<Seq<char>, Decl>,
    stubs: Map<Seq<char>, Stub>,
    rec: SRec,
    name: Seq<char>,
    args: Seq<SValue>,
    fuel: nat,
    depth: nat,
)
    ensures
        ({
            let out = spec_call(decls, stubs, rec, name, args, fuel, depth);
            &&& fuel == 0 ==> out == (SCallOut { result: Err(SInterpError::StepBudgetExhausted), rec, fuel: 0 })
            &&& fuel > 0 && depth >= MAX_CALL_DEPTH ==> out == (SCallOut {
                result: Err(SInterpError::CallDepthExceeded(name)),
                rec,
                fuel,
            })
            &&& fuel > 0 && depth < MAX_CALL_DEPTH && spec_lookup_primitive(name) is None && !stubs.contains_key(name) ==> {
                &&& !decls.contains_key(name) ==> out == (SCallOut {
                    result: Err(SInterpError::FunctionNotFound(name)),
                    rec,
                    fuel: (fuel - 1) as nat,
                })
                &&& decls.contains_key(name) ==> (decls[name] matches Decl::FnDecl { params, body, .. } ==> out
                    == spec_run(
                    decls,
                    stubs,
                    SFrame {
                        locals: spec_bind_params(
                            Map::empty(),
                            params@,
                            args,
                            if params@.len() < args.len() { params@.len() } else { args.len() },
                        ),
                        jps: Map::empty(),
                        prov: Map::empty(),
                    },
                    rec,
                    model_body(body),
                    (fuel - 1) as nat,
                    depth + 1,
                ))
            }
        }),
{
}

} // verus!
