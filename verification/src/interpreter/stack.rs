use std::collections::HashMap;

use vstd::prelude::*;

use crate::ir_types::{model_body, spec_body_wf, FnBody, JoinPointId, Param, SFnBody, VarId};
use crate::value::{spec_set_field, SValue, Value};

verus! {

broadcast use vstd::std_specs::hash::group_hash_axioms;

/// Records that a variable was obtained by `proj(parent_var, field_idx)`, so
/// that a later `set` on it can be written back into the parent.
#[derive(Debug, Clone, Copy)]
pub struct ProjProvenance {
    pub parent_var: VarId,
    pub field_idx: usize,
}

#[derive(Debug)]
pub struct JoinPointDef {
    pub params: Vec<Param>,
    pub body: FnBody,
}

#[derive(Debug)]
pub struct CallFrame {
    pub fn_name: String,
    pub locals: HashMap<VarId, Value>,
    pub join_points: HashMap<JoinPointId, JoinPointDef>,
    pub proj_provenance: HashMap<VarId, ProjProvenance>,
}

/// The models of the local variables.
pub open spec fn spec_locals(m: Map<VarId, Value>) -> Map<VarId, SValue> {
    Map::new(|k: VarId| m.contains_key(k), |k: VarId| m[k]@)
}

/// The model of a join point: its parameters and its body.
pub struct SJoinPoint {
    pub params: Seq<Param>,
    pub body: SFnBody,
}

/// The model of a frame: the values of its variables, its join points, and
/// the parent each projected variable was read from.
pub struct SFrame {
    pub locals: Map<VarId, SValue>,
    pub jps: Map<JoinPointId, SJoinPoint>,
    pub prov: Map<VarId, ProjProvenance>,
}

/// The variables after binding the first `n` parameters to the first `n`
/// values, in order.
pub open spec fn spec_bind_params(locals: Map<VarId, SValue>, params: Seq<Param>, vals: Seq<SValue>, n: nat) -> Map<
    VarId,
    SValue,
>
    decreases n,
{
    if n == 0 {
        locals
    } else {
        spec_bind_params(locals, params, vals, (n - 1) as nat).insert(params[n - 1].var, vals[n - 1])
    }
}

/// The number of parameters that a call or jump binds: as many as there are
/// both parameters and values.
pub open spec fn spec_bound_count(params: Seq<Param>, vals: Seq<SValue>) -> nat {
    if params.len() < vals.len() {
        params.len()
    } else {
        vals.len()
    }
}

/// Writing a variable back into its parent, then the parent into its own
/// parent, and so on up the provenance chain, for at most `fuel` links.
pub open spec fn spec_propagate(
    locals: Map<VarId, SValue>,
    prov: Map<VarId, ProjProvenance>,
    cur: VarId,
    fuel: nat,
) -> Map<VarId, SValue>
    decreases fuel,
{
    if fuel == 0 || !prov.contains_key(cur) {
        locals
    } else {
        let p = prov[cur];
        let next = if locals.contains_key(cur) && locals.contains_key(p.parent_var) {
            locals.insert(
                p.parent_var,
                spec_set_field(locals[p.parent_var], p.field_idx as int, locals[cur]),
            )
        } else {
            locals
        };
        spec_propagate(next, prov, p.parent_var, (fuel - 1) as nat)
    }
}

impl CallFrame {
    /// The frame's variables, join points and projection sources; the
    /// function's name, which only labels the frame, is left out.
    pub open spec fn model(&self) -> SFrame {
        SFrame {
            locals: spec_locals(self.locals@),
            jps: Map::new(
                |j: JoinPointId| self.join_points@.contains_key(j),
                |j: JoinPointId|
                    SJoinPoint { params: self.join_points@[j].params@, body: model_body(self.join_points@[j].body) },
            ),
            prov: self.proj_provenance@,
        }
    }

    /// Every join point of the frame has a well-formed body.
    pub open spec fn spec_wf(&self) -> bool {
        forall|j: JoinPointId| #[trigger] self.join_points@.contains_key(j) ==> spec_body_wf(
            self.join_points@[j].body,
        )
    }

    pub fn new(fn_name: String) -> (r: Self)
        ensures
            r.fn_name == fn_name,
            r.locals@ == Map::<VarId, Value>::empty(),
            r.join_points@ == Map::<JoinPointId, JoinPointDef>::empty(),
            r.proj_provenance@ == Map::<VarId, ProjProvenance>::empty(),
            r.spec_wf(),
    {
        CallFrame {
            fn_name,
            locals: HashMap::new(),
            join_points: HashMap::new(),
            proj_provenance: HashMap::new(),
        }
    }

    pub fn get_var(&self, var: VarId) -> (r: &Value)
        requires
            self.locals@.contains_key(var),
        ensures
            *r == self.locals@[var],
    {
        self.locals.get(&var).unwrap()
    }

    pub fn set_var(&mut self, var: VarId, val: Value)
        ensures
            final(self).locals@ == old(self).locals@.insert(var, val),
            final(self).join_points@ == old(self).join_points@,
            final(self).proj_provenance@ == old(self).proj_provenance@,
            final(self).fn_name == old(self).fn_name,
            final(self).model() == (SFrame {
                locals: old(self).model().locals.insert(var, val@),
                jps: old(self).model().jps,
                prov: old(self).model().prov,
            }),
    {
        self.locals.insert(var, val);
        proof {
            assert(spec_locals(self.locals@) =~= spec_locals(old(self).locals@).insert(var, val@));
            assert(self.model().jps =~= old(self).model().jps);
        }
    }

    pub fn record_proj(&mut self, result_var: VarId, parent_var: VarId, field_idx: usize)
        ensures
            final(self).proj_provenance@ == old(self).proj_provenance@.insert(
                result_var,
                ProjProvenance { parent_var, field_idx },
            ),
            final(self).locals@ == old(self).locals@,
            final(self).join_points@ == old(self).join_points@,
            final(self).fn_name == old(self).fn_name,
            final(self).model() == (SFrame {
                locals: old(self).model().locals,
                jps: old(self).model().jps,
                prov: old(self).model().prov.insert(result_var, ProjProvenance { parent_var, field_idx }),
            }),
    {
        self.proj_provenance.insert(result_var, ProjProvenance { parent_var, field_idx });
        proof {
            assert(self.model().jps =~= old(self).model().jps);
        }
    }

    /// After `var` was modified, writes it back into the object it was
    /// projected from, and that object into its own parent, up the chain.
    pub fn propagate_set(&mut self, var: VarId)
        ensures
            spec_locals(final(self).locals@) == spec_propagate(
                spec_locals(old(self).locals@),
                old(self).proj_provenance@,
                var,
                old(self).proj_provenance@.len(),
            ),
            final(self).proj_provenance@ == old(self).proj_provenance@,
            final(self).join_points@ == old(self).join_points@,
            final(self).fn_name == old(self).fn_name,
            final(self).model() == (SFrame {
                locals: spec_propagate(old(self).model().locals, old(self).model().prov, var, old(self).model().prov.len()),
                jps: old(self).model().jps,
                prov: old(self).model().prov,
            }),
    {
        let ghost prov = self.proj_provenance@;
        let ghost target = spec_propagate(spec_locals(self.locals@), prov, var, prov.len());
        let mut current = var;
        let mut steps: usize = self.proj_provenance.len();
        while steps > 0
            invariant
                self.proj_provenance@ == prov,
                self.join_points@ == old(self).join_points@,
                self.fn_name == old(self).fn_name,
                spec_propagate(spec_locals(self.locals@), prov, current, steps as nat) == target,
            ensures
                spec_locals(self.locals@) == target,
                self.proj_provenance@ == prov,
                self.join_points@ == old(self).join_points@,
                self.fn_name == old(self).fn_name,
            decreases steps,
        {
            let prov_entry = match self.proj_provenance.get(&current) {
                Some(p) => *p,
                None => {
                    break;
                },
            };
            let ghost before = spec_locals(self.locals@);
            let ghost next = if before.contains_key(current) && before.contains_key(prov_entry.parent_var) {
                before.insert(
                    prov_entry.parent_var,
                    spec_set_field(before[prov_entry.parent_var], prov_entry.field_idx as int, before[current]),
                )
            } else {
                before
            };
            assert(spec_propagate(before, prov, current, steps as nat) == spec_propagate(
                next,
                prov,
                prov_entry.parent_var,
                (steps - 1) as nat,
            ));
            let child = match self.locals.get(&current) {
                Some(c) => Some(c.clone_value()),
                None => None,
            };
            if let Some(child_val) = child {
                if let Some(mut parent) = self.locals.remove(&prov_entry.parent_var) {
                    parent.set_field(prov_entry.field_idx, child_val);
                    self.locals.insert(prov_entry.parent_var, parent);
                    assert(spec_locals(self.locals@) =~= next);
                } else {
                    assert(spec_locals(self.locals@) =~= next);
                }
            } else {
                assert(spec_locals(self.locals@) =~= next);
            }
            current = prov_entry.parent_var;
            steps = steps - 1;
        }
        proof {
            assert(self.model().jps =~= old(self).model().jps);
        }
    }

    pub fn register_jp(&mut self, jp: JoinPointId, params: Vec<Param>, body: FnBody)
        ensures
            final(self).join_points@ == old(self).join_points@.insert(jp, JoinPointDef { params, body }),
            final(self).locals@ == old(self).locals@,
            final(self).proj_provenance@ == old(self).proj_provenance@,
            final(self).fn_name == old(self).fn_name,
            old(self).spec_wf() && spec_body_wf(body) ==> final(self).spec_wf(),
            final(self).model() == (SFrame {
                locals: old(self).model().locals,
                jps: old(self).model().jps.insert(jp, SJoinPoint { params: params@, body: model_body(body) }),
                prov: old(self).model().prov,
            }),
    {
        let ghost p = params@;
        let ghost b = model_body(body);
        self.join_points.insert(jp, JoinPointDef { params, body });
        proof {
            assert(self.model().jps =~= old(self).model().jps.insert(jp, SJoinPoint { params: p, body: b }));
        }
    }

    pub fn get_jp(&self, jp: JoinPointId) -> (r: &JoinPointDef)
        requires
            self.join_points@.contains_key(jp),
        ensures
            *r == self.join_points@[jp],
    {
        self.join_points.get(&jp).unwrap()
    }
}


/// Binding the first `n` parameters: each bound parameter variable holds
/// the value of the last of those parameters that names it, and every other
/// variable keeps its value (or stays unbound).
pub proof fn lemma_bind_params_meaning(locals: Map<VarId, SValue>, params: Seq<Param>, vals: Seq<SValue>, n: nat)
    requires
        n <= params.len(),
        n <= vals.len(),
    ensures
        ({
            let l2 = spec_bind_params(locals, params, vals, n);
            &&& forall|j: int|
                0 <= j < n && (forall|k: int| j < k < n ==> params[k].var != params[j].var) ==> #[trigger] l2.contains_key(
                    params[j].var,
                ) && l2[params[j].var] == vals[j]
            &&& forall|x: VarId|
                (forall|j: int| 0 <= j < n ==> params[j].var != x) ==> (#[trigger] l2.contains_key(x)
                    == locals.contains_key(x) && (locals.contains_key(x) ==> l2[x] == locals[x]))
        }),
    decreases n,
{
    if n > 0 {
        let m = (n - 1) as nat;
        lemma_bind_params_meaning(locals, params, vals, m);
        let l1 = spec_bind_params(locals, params, vals, m);
        let l2 = spec_bind_params(locals, params, vals, n);
        assert(l2 == l1.insert(params[m as int].var, vals[m as int]));
        assert forall|j: int|
            0 <= j < n && (forall|k: int| j < k < n ==> params[k].var != params[j].var) implies #[trigger] l2.contains_key(
            params[j].var,
        ) && l2[params[j].var] == vals[j] by {
            if j < m {
                assert(params[m as int].var != params[j].var);
                assert(forall|k: int| j < k < m ==> params[k].var != params[j].var);
                assert(l1.contains_key(params[j].var) && l1[params[j].var] == vals[j]);
            }
        }
        assert forall|x: VarId| (forall|j: int| 0 <= j < n ==> params[j].var != x) implies (#[trigger] l2.contains_key(x)
            == locals.contains_key(x) && (locals.contains_key(x) ==> l2[x] == locals[x])) by {
            assert(params[m as int].var != x);
            assert(forall|j: int| 0 <= j < m ==> params[j].var != x);
        }
    }
}

} // verus!
