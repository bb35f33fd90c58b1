use vstd::prelude::*;

use crate::primitives::{eval_primitive, spec_eval_primitive, spec_primitive_defined};
use crate::trace_types::{Trace, TraceStep, ValueId, TRACE_MAGIC};
use crate::value::{lemma_view_values, spec_field, spec_set_field, spec_tag, view_values, SValue, Value};

verus! {

broadcast use lemma_view_values;

/// Why one step of a trace does not check out.
#[derive(Debug, Clone, Copy, PartialEq, Eq, Structural)]
pub enum StepFault {
    /// A value id of the step is not an index of the value table.
    IdOutOfRange,
    /// The primitive cannot be evaluated on the recorded arguments.
    PrimitiveUndefined,
    /// The primitive evaluates to another value than the recorded result.
    PrimitiveMismatch,
    /// The scrutinee's tag is not the recorded branch.
    BranchTagMismatch,
    /// The constructed value's tag is not the recorded constructor tag.
    CtorTagMismatch,
    /// The constructed value is not an object.
    CtorNotObject,
    /// The constructed object has another number of fields than recorded.
    CtorFieldCountMismatch,
    /// A field of the constructed object is not the recorded field value.
    CtorFieldMismatch,
    /// The constructed object's scalar bytes are not the recorded ones.
    CtorScalarMismatch,
    /// The projected field is not the recorded result.
    ProjMismatch,
    /// The object with the field replaced is not the recorded result.
    SetMismatch,
}

/// Why a trace is rejected.
#[derive(Debug, Clone, Copy, PartialEq, Eq, Structural)]
pub enum VerifyError {
    BadMagic,
    ValueCountMismatch,
    StepCountMismatch,
    OutputIdOutOfRange,
    Step { index: usize, fault: StepFault },
}

pub open spec fn spec_id_ok(values: Seq<SValue>, id: ValueId) -> bool {
    (id as int) < values.len()
}

pub open spec fn spec_ids_ok(values: Seq<SValue>, ids: Seq<ValueId>) -> bool {
    forall|j: int| 0 <= j < ids.len() ==> spec_id_ok(values, #[trigger] ids[j])
}

/// The values that a list of ids names.
pub open spec fn spec_lookup(values: Seq<SValue>, ids: Seq<ValueId>) -> Seq<SValue> {
    Seq::new(ids.len(), |j: int| values[ids[j] as int])
}

/// What is wrong with one step against the value table, if anything; the
/// checks are made in the order in which the verifier makes them.
pub open spec fn spec_step_fault(values: Seq<SValue>, step: TraceStep) -> Option<StepFault> {
    match step {
        TraceStep::PrimResult { op, args, result } => {
            if !spec_id_ok(values, result) || !spec_ids_ok(values, args@) {
                Some(StepFault::IdOutOfRange)
            } else if !spec_primitive_defined(op, spec_lookup(values, args@)) {
                Some(StepFault::PrimitiveUndefined)
            } else if spec_eval_primitive(op, spec_lookup(values, args@)) != values[result as int] {
                Some(StepFault::PrimitiveMismatch)
            } else {
                None
            }
        },
        TraceStep::Branch { scrutinee, chosen_tag } => {
            if !spec_id_ok(values, scrutinee) {
                Some(StepFault::IdOutOfRange)
            } else if spec_tag(values[scrutinee as int]) != chosen_tag {
                Some(StepFault::BranchTagMismatch)
            } else {
                None
            }
        },
        TraceStep::CtorCreate { tag, fields, scalar_data, result } => {
            if !spec_id_ok(values, result) || !spec_ids_ok(values, fields@) {
                Some(StepFault::IdOutOfRange)
            } else if spec_tag(values[result as int]) != tag {
                Some(StepFault::CtorTagMismatch)
            } else {
                match values[result as int] {
                    SValue::Object { fields: obj_fields, scalars, .. } => {
                        if obj_fields.len() != fields@.len() {
                            Some(StepFault::CtorFieldCountMismatch)
                        } else if obj_fields != spec_lookup(values, fields@) {
                            Some(StepFault::CtorFieldMismatch)
                        } else if scalars != scalar_data@ {
                            Some(StepFault::CtorScalarMismatch)
                        } else {
                            None
                        }
                    },
                    _ => Some(StepFault::CtorNotObject),
                }
            }
        },
        TraceStep::ProjResult { obj, idx, result } => {
            if !spec_id_ok(values, obj) || !spec_id_ok(values, result) {
                Some(StepFault::IdOutOfRange)
            } else if spec_field(values[obj as int], idx as int) != values[result as int] {
                Some(StepFault::ProjMismatch)
            } else {
                None
            }
        },
        TraceStep::SetResult { obj, idx, val, result } => {
            if !spec_id_ok(values, obj) || !spec_id_ok(values, val) || !spec_id_ok(values, result) {
                Some(StepFault::IdOutOfRange)
            } else if spec_set_field(values[obj as int], idx as int, values[val as int])
                != values[result as int] {
                Some(StepFault::SetMismatch)
            } else {
                None
            }
        },
    }
}

/// The value ids that a step refers to.
pub open spec fn spec_step_refs(step: TraceStep) -> Seq<ValueId> {
    match step {
        TraceStep::PrimResult { args, result, .. } => args@.push(result),
        TraceStep::Branch { scrutinee, .. } => seq![scrutinee],
        TraceStep::CtorCreate { fields, result, .. } => fields@.push(result),
        TraceStep::ProjResult { obj, result, .. } => seq![obj, result],
        TraceStep::SetResult { obj, val, result, .. } => seq![obj, val, result],
    }
}

/// Every id a step refers to names a value of a table of `n` values.
pub open spec fn spec_refs_below(steps: Seq<TraceStep>, n: nat) -> bool {
    forall|i: int, j: int|
        0 <= i < steps.len() && 0 <= j < spec_step_refs(steps[i]).len() ==> (#[trigger] spec_step_refs(steps[i])[j]) < n
}

/// The first step, by index, that does not check out, with its fault.
pub open spec fn spec_first_fault(values: Seq<SValue>, steps: Seq<TraceStep>) -> Option<(int, StepFault)>
    decreases steps.len(),
{
    if steps.len() == 0 {
        None
    } else {
        match spec_first_fault(values, steps.drop_last()) {
            Some(f) => Some(f),
            None => match spec_step_fault(values, steps.last()) {
                Some(fault) => Some(((steps.len() - 1) as int, fault)),
                None => None,
            },
        }
    }
}

/// Whether every step checks out against the value table.
pub open spec fn spec_steps_valid(values: Seq<SValue>, steps: Seq<TraceStep>) -> bool {
    forall|i: int| 0 <= i < steps.len() ==> #[trigger] spec_step_fault(values, steps[i]) is None
}

/// Whether every step from the `n`-th on checks out against the value table.
pub open spec fn spec_steps_valid_from(values: Seq<SValue>, steps: Seq<TraceStep>, n: int) -> bool {
    forall|i: int| 0 <= i && n <= i < steps.len() ==> #[trigger] spec_step_fault(values, steps[i]) is None
}

/// The verdict on a trace: the header checks in order, then the first step
/// that does not check out.
pub open spec fn spec_verify_trace(trace: Trace) -> Result<(), VerifyError> {
    let values = view_values(trace.value_table@);
    if trace.header.magic@ != TRACE_MAGIC@ {
        Err(VerifyError::BadMagic)
    } else if trace.header.value_count as usize != trace.value_table@.len() {
        Err(VerifyError::ValueCountMismatch)
    } else if trace.header.step_count as usize != trace.steps@.len() {
        Err(VerifyError::StepCountMismatch)
    } else if trace.output_value_id >= (trace.value_table@.len() as u32) {
        Err(VerifyError::OutputIdOutOfRange)
    } else {
        match spec_first_fault(values, trace.steps@) {
            Some((i, fault)) => Err(VerifyError::Step { index: i as usize, fault }),
            None => Ok(()),
        }
    }
}

/// No fault in a prefix means every step of it checks out, and conversely.
pub proof fn lemma_first_fault_none(values: Seq<SValue>, steps: Seq<TraceStep>)
    ensures
        spec_first_fault(values, steps) is None <==> spec_steps_valid(values, steps),
    decreases steps.len(),
{
    if steps.len() > 0 {
        let init = steps.drop_last();
        lemma_first_fault_none(values, init);
        if spec_steps_valid(values, steps) {
            assert forall|i: int| 0 <= i < init.len() implies #[trigger] spec_step_fault(values, init[i]) is None by {
                assert(init[i] == steps[i]);
            }
            assert(spec_step_fault(values, steps[steps.len() - 1]) is None);
        }
        if spec_first_fault(values, steps) is None {
            assert forall|i: int| 0 <= i < steps.len() implies #[trigger] spec_step_fault(values, steps[i]) is None by {
                if i < steps.len() - 1 {
                    assert(init[i] == steps[i]);
                    assert(spec_step_fault(values, init[i]) is None);
                }
            }
        }
    }
}

/// The first fault of a prefix extended by one step.
proof fn lemma_first_fault_push(values: Seq<SValue>, steps: Seq<TraceStep>, i: int)
    requires
        0 <= i < steps.len(),
        spec_first_fault(values, steps.take(i)) is None,
    ensures
        spec_first_fault(values, steps.take(i + 1)) == match spec_step_fault(values, steps[i]) {
            Some(fault) => Some((i, fault)),
            None => None::<(int, StepFault)>,
        },
{
    assert(steps.take(i + 1).drop_last() =~= steps.take(i));
}

/// A fault in a prefix is the fault of the whole.
proof fn lemma_first_fault_extend(values: Seq<SValue>, steps: Seq<TraceStep>, i: int)
    requires
        0 <= i <= steps.len(),
        spec_first_fault(values, steps.take(i)) is Some,
    ensures
        spec_first_fault(values, steps) == spec_first_fault(values, steps.take(i)),
    decreases steps.len() - i,
{
    if i < steps.len() {
        assert(steps.take(i + 1).drop_last() =~= steps.take(i));
        lemma_first_fault_extend(values, steps, i + 1);
    } else {
        assert(steps.take(i) =~= steps);
    }
}

/// What an accepted step says about the value table: all the ids it names
/// are in the table, and
/// - a primitive step: the primitive is defined on the named arguments and
///   its result is the named result value;
/// - a branch: the scrutinee's constructor tag (an object's tag, a scalar's
///   low 16 bits, 0 otherwise) is the chosen one;
/// - a construction: the result value is exactly the object with the
///   recorded tag, the named field values in order and the recorded scalar
///   bytes;
/// - a projection: the result value is the object's field at the index
///   (`Irrelevant` when there is no such field);
/// - a field set: the result value is the object with that field replaced
///   by the named value (the object itself when there is no such field).
/// A step is accepted exactly when this holds.
pub proof fn lemma_step_accepted_meaning(values: Seq<SValue>, step: TraceStep)
    ensures
        spec_step_fault(values, step) is None <==> match step {
            TraceStep::PrimResult { op, args, result } => {
                let named = Seq::new(args@.len(), |j: int| values[args@[j] as int]);
                &&& (result as int) < values.len()
                &&& forall|j: int| 0 <= j < args@.len() ==> (#[trigger] args@[j] as int) < values.len()
                &&& spec_primitive_defined(op, named)
                &&& values[result as int] == spec_eval_primitive(op, named)
            },
            TraceStep::Branch { scrutinee, chosen_tag } => {
                &&& (scrutinee as int) < values.len()
                &&& match values[scrutinee as int] {
                    SValue::Object { tag, .. } => tag == chosen_tag,
                    SValue::Scalar(x) => x % 0x1_0000 == chosen_tag as u64,
                    _ => chosen_tag == 0,
                }
            },
            TraceStep::CtorCreate { tag, fields, scalar_data, result } => {
                &&& (result as int) < values.len()
                &&& forall|j: int| 0 <= j < fields@.len() ==> (#[trigger] fields@[j] as int) < values.len()
                &&& values[result as int] == (SValue::Object {
                    tag,
                    fields: Seq::new(fields@.len(), |j: int| values[fields@[j] as int]),
                    scalars: scalar_data@,
                })
            },
            TraceStep::ProjResult { obj, idx, result } => {
                &&& (obj as int) < values.len()
                &&& (result as int) < values.len()
                &&& values[result as int] == match values[obj as int] {
                    SValue::Object { fields, .. } => if (idx as int) < fields.len() {
                        fields[idx as int]
                    } else {
                        SValue::Irrelevant
                    },
                    _ => SValue::Irrelevant,
                }
            },
            TraceStep::SetResult { obj, idx, val, result } => {
                &&& (obj as int) < values.len()
                &&& (val as int) < values.len()
                &&& (result as int) < values.len()
                &&& values[result as int] == match values[obj as int] {
                    SValue::Object { tag, fields, scalars } => if (idx as int) < fields.len() {
                        SValue::Object { tag, fields: fields.update(idx as int, values[val as int]), scalars }
                    } else {
                        values[obj as int]
                    },
                    _ => values[obj as int],
                }
            },
        },
{
    match step {
        TraceStep::PrimResult { op, args, result } => {
            assert(Seq::new(args@.len(), |j: int| values[args@[j] as int]) =~= spec_lookup(values, args@));
        },
        TraceStep::Branch { scrutinee, chosen_tag } => {
            if (scrutinee as int) < values.len() {
                if let SValue::Scalar(x) = values[scrutinee as int] {
                    assert((x as u16) as u64 == x % 0x1_0000) by (bit_vector);
                }
            }
        },
        TraceStep::CtorCreate { tag, fields, scalar_data, result } => {
            assert(Seq::new(fields@.len(), |j: int| values[fields@[j] as int]) =~= spec_lookup(values, fields@));
        },
        _ => {},
    }
}

/// What an accepted trace is: a header with the trace magic and the counts
/// of its values and steps, an output id in the table, and every step
/// accepted (see `lemma_step_accepted_meaning`).
pub proof fn lemma_trace_accepted_meaning(t: Trace)
    ensures
        spec_verify_trace(t) is Ok <==> {
            &&& t.header.magic@ == TRACE_MAGIC@
            &&& t.header.value_count as usize == t.value_table@.len()
            &&& t.header.step_count as usize == t.steps@.len()
            &&& t.output_value_id < (t.value_table@.len() as u32)
            &&& forall|i: int| 0 <= i < t.steps@.len() ==> #[trigger] spec_step_fault(
                view_values(t.value_table@),
                t.steps@[i],
            ) is None
        },
{
    lemma_first_fault_none(view_values(t.value_table@), t.steps@);
}

/// Two tables that agree on the values a step names give the step the same
/// verdict.
proof fn lemma_step_fault_agree(values: Seq<SValue>, values2: Seq<SValue>, step: TraceStep)
    requires
        values2.len() == values.len(),
        forall|j: int|
            0 <= j < spec_step_refs(step).len() && (spec_step_refs(step)[j] as int) < values.len() ==> values2[
            #[trigger] spec_step_refs(step)[j] as int] == values[spec_step_refs(step)[j] as int],
    ensures
        spec_step_fault(values2, step) == spec_step_fault(values, step),
{
    let refs = spec_step_refs(step);
    match step {
        TraceStep::PrimResult { op, args, result } => {
            assert(refs[args@.len() as int] == result);
            if spec_ids_ok(values, args@) {
                assert(spec_lookup(values2, args@) =~= spec_lookup(values, args@)) by {
                    assert forall|j: int| 0 <= j < args@.len() implies #[trigger] spec_lookup(values2, args@)[j]
                        == spec_lookup(values, args@)[j] by {
                        assert(refs[j] == args@[j]);
                        assert(spec_id_ok(values, args@[j]));
                    }
                }
            }
        },
        TraceStep::Branch { scrutinee, .. } => {
            assert(refs[0] == scrutinee);
        },
        TraceStep::CtorCreate { fields, result, .. } => {
            assert(refs[fields@.len() as int] == result);
            if spec_ids_ok(values, fields@) {
                assert(spec_lookup(values2, fields@) =~= spec_lookup(values, fields@)) by {
                    assert forall|j: int| 0 <= j < fields@.len() implies #[trigger] spec_lookup(values2, fields@)[j]
                        == spec_lookup(values, fields@)[j] by {
                        assert(refs[j] == fields@[j]);
                        assert(spec_id_ok(values, fields@[j]));
                    }
                }
            }
        },
        TraceStep::ProjResult { obj, result, .. } => {
            assert(refs[0] == obj);
            assert(refs[1] == result);
        },
        TraceStep::SetResult { obj, val, result, .. } => {
            assert(refs[0] == obj);
            assert(refs[1] == val);
            assert(refs[2] == result);
        },
    }
}

/// Two tables that agree on every value the steps name give the same first
/// fault.
proof fn lemma_first_fault_agree(values: Seq<SValue>, values2: Seq<SValue>, steps: Seq<TraceStep>)
    requires
        values2.len() == values.len(),
        forall|i: int, j: int|
            0 <= i < steps.len() && 0 <= j < spec_step_refs(steps[i]).len() && (spec_step_refs(steps[i])[j] as int)
                < values.len() ==> values2[#[trigger] spec_step_refs(steps[i])[j] as int] == values[spec_step_refs(
                steps[i],
            )[j] as int],
    ensures
        spec_first_fault(values2, steps) == spec_first_fault(values, steps),
    decreases steps.len(),
{
    if steps.len() > 0 {
        let init = steps.drop_last();
        assert forall|i: int, j: int|
            0 <= i < init.len() && 0 <= j < spec_step_refs(init[i]).len() && (spec_step_refs(init[i])[j] as int)
                < values.len() implies values2[#[trigger] spec_step_refs(init[i])[j] as int] == values[spec_step_refs(
            init[i],
        )[j] as int] by {
            assert(init[i] == steps[i]);
        }
        lemma_first_fault_agree(values, values2, init);
        let last = steps[steps.len() - 1];
        assert forall|j: int|
            0 <= j < spec_step_refs(last).len() && (spec_step_refs(last)[j] as int) < values.len() implies values2[
            #[trigger] spec_step_refs(last)[j] as int] == values[spec_step_refs(last)[j] as int] by {
            assert(spec_step_refs(steps[steps.len() - 1])[j] == spec_step_refs(last)[j]);
        }
        lemma_step_fault_agree(values, values2, last);
    }
}

/// The verdict on a trace does not depend on a value that no step refers
/// to: replacing that value by any other gives the same verdict. This is
/// what makes it sound to drop such values from a trace.
pub proof fn lemma_verdict_ignores_unreferenced(t: Trace, t2: Trace, k: int)
    requires
        0 <= k < t.value_table@.len(),
        forall|i: int, j: int|
            0 <= i < t.steps@.len() && 0 <= j < spec_step_refs(t.steps@[i]).len() ==> #[trigger] spec_step_refs(
                t.steps@[i],
            )[j] as int != k,
        t2.header == t.header,
        t2.steps@ == t.steps@,
        t2.output_value_id == t.output_value_id,
        t2.value_table@ == t.value_table@.update(k, t2.value_table@[k]),
    ensures
        spec_verify_trace(t2) == spec_verify_trace(t),
{
    let values = view_values(t.value_table@);
    let values2 = view_values(t2.value_table@);
    let steps = t.steps@;
    assert forall|i: int, j: int|
        0 <= i < steps.len() && 0 <= j < spec_step_refs(steps[i]).len() && (spec_step_refs(steps[i])[j] as int)
            < values.len() implies values2[#[trigger] spec_step_refs(steps[i])[j] as int] == values[spec_step_refs(
        steps[i],
    )[j] as int] by {
        let x = spec_step_refs(steps[i])[j] as int;
        assert(x != k);
        assert(t2.value_table@[x] == t.value_table@[x]);
    }
    lemma_first_fault_agree(values, values2, steps);
}

/// `ext` starts with `values`.
pub open spec fn spec_extends(values: Seq<SValue>, ext: Seq<SValue>) -> bool {
    values.len() <= ext.len() && forall|k: int| 0 <= k < values.len() ==> #[trigger] ext[k] == values[k]
}

pub proof fn lemma_extends_trans(a: Seq<SValue>, b: Seq<SValue>, c: Seq<SValue>)
    requires
        spec_extends(a, b),
        spec_extends(b, c),
    ensures
        spec_extends(a, c),
{
    assert forall|k: int| 0 <= k < a.len() implies #[trigger] c[k] == a[k] by {
        assert(c[k] == b[k]);
    }
}

/// A step that checks out against a value table checks out against any
/// longer table that starts with it.
pub proof fn lemma_step_valid_extend(values: Seq<SValue>, ext: Seq<SValue>, step: TraceStep)
    requires
        spec_extends(values, ext),
        spec_step_fault(values, step) is None,
    ensures
        spec_step_fault(ext, step) is None,
{
    match step {
        TraceStep::PrimResult { op, args, result } => {
            assert(spec_lookup(ext, args@) =~= spec_lookup(values, args@)) by {
                assert forall|j: int| 0 <= j < args@.len() implies #[trigger] spec_lookup(ext, args@)[j] == spec_lookup(values, args@)[j] by {
                    assert(spec_id_ok(values, args@[j]));
                }
            }
            assert(spec_ids_ok(ext, args@)) by {
                assert forall|j: int| 0 <= j < args@.len() implies spec_id_ok(ext, #[trigger] args@[j]) by {
                    assert(spec_id_ok(values, args@[j]));
                }
            }
        },
        TraceStep::CtorCreate { tag, fields, scalar_data, result } => {
            assert(spec_lookup(ext, fields@) =~= spec_lookup(values, fields@)) by {
                assert forall|j: int| 0 <= j < fields@.len() implies #[trigger] spec_lookup(ext, fields@)[j] == spec_lookup(values, fields@)[j] by {
                    assert(spec_id_ok(values, fields@[j]));
                }
            }
            assert(spec_ids_ok(ext, fields@)) by {
                assert forall|j: int| 0 <= j < fields@.len() implies spec_id_ok(ext, #[trigger] fields@[j]) by {
                    assert(spec_id_ok(values, fields@[j]));
                }
            }
        },
        _ => {},
    }
}

/// Steps that check out against a value table check out against any longer
/// table that starts with it.
pub proof fn lemma_steps_valid_extend(values: Seq<SValue>, ext: Seq<SValue>, steps: Seq<TraceStep>)
    requires
        spec_extends(values, ext),
    ensures
        spec_steps_valid(values, steps) ==> spec_steps_valid(ext, steps),
        forall|n: int| #[trigger] spec_steps_valid_from(values, steps, n) ==> spec_steps_valid_from(ext, steps, n),
        spec_refs_below(steps, values.len()) ==> spec_refs_below(steps, ext.len()),
{
    if spec_steps_valid(values, steps) {
        assert forall|i: int| 0 <= i < steps.len() implies #[trigger] spec_step_fault(ext, steps[i]) is None by {
            lemma_step_valid_extend(values, ext, steps[i]);
        }
    }
    assert forall|n: int| #[trigger] spec_steps_valid_from(values, steps, n) implies spec_steps_valid_from(
        ext,
        steps,
        n,
    ) by {
        assert forall|i: int| 0 <= i && n <= i < steps.len() implies #[trigger] spec_step_fault(ext, steps[i]) is None by {
            lemma_step_valid_extend(values, ext, steps[i]);
        }
    }
}

/// Recording a step keeps every id below the table's length when the step's
/// ids are, and keeps the steps valid when the step checks out.
pub proof fn lemma_push_step(values: Seq<SValue>, steps: Seq<TraceStep>, step: TraceStep)
    requires
        spec_refs_below(steps, values.len()),
        forall|j: int| 0 <= j < spec_step_refs(step).len() ==> (#[trigger] spec_step_refs(step)[j]) < values.len(),
    ensures
        spec_refs_below(steps.push(step), values.len()),
        spec_steps_valid(values, steps) && spec_step_fault(values, step) is None ==> spec_steps_valid(
            values,
            steps.push(step),
        ),
        forall|n: int|
            #[trigger] spec_steps_valid_from(values, steps, n) && spec_step_fault(values, step) is None
                ==> spec_steps_valid_from(values, steps.push(step), n),
{
    let s2 = steps.push(step);
    assert forall|i: int, j: int| 0 <= i < s2.len() && 0 <= j < spec_step_refs(s2[i]).len() implies (
    #[trigger] spec_step_refs(s2[i])[j]) < values.len() by {
        if i < steps.len() {
            assert(s2[i] == steps[i]);
        }
    }
    if spec_steps_valid(values, steps) && spec_step_fault(values, step) is None {
        assert forall|i: int| 0 <= i < s2.len() implies #[trigger] spec_step_fault(values, s2[i]) is None by {
            if i < steps.len() {
                assert(s2[i] == steps[i]);
            }
        }
    }
    assert forall|n: int|
        #[trigger] spec_steps_valid_from(values, steps, n) && spec_step_fault(values, step) is None implies spec_steps_valid_from(
        values,
        s2,
        n,
    ) by {
        assert forall|i: int| 0 <= i && n <= i < s2.len() implies #[trigger] spec_step_fault(values, s2[i]) is None by {
            if i < steps.len() {
                assert(s2[i] == steps[i]);
            }
        }
    }
}

fn id_ok(values: &Vec<Value>, vlen: u32, id: ValueId) -> (r: bool)
    requires
        vlen as int == values@.len(),
    ensures
        r == spec_id_ok(view_values(values@), id),
{
    id < vlen
}

fn ids_ok(values: &Vec<Value>, vlen: u32, ids: &Vec<ValueId>) -> (r: bool)
    requires
        vlen as int == values@.len(),
    ensures
        r == spec_ids_ok(view_values(values@), ids@),
{
    let mut j: usize = 0;
    while j < ids.len()
        invariant
            vlen as int == values@.len(),
            j <= ids@.len(),
            forall|k: int| 0 <= k < j ==> spec_id_ok(view_values(values@), #[trigger] ids@[k]),
        decreases ids@.len() - j,
    {
        if !(ids[j] < vlen) {
            return false;
        }
        j = j + 1;
    }
    true
}

/// The values that the ids name, copied out of the table.
fn lookup_values(values: &Vec<Value>, ids: &Vec<ValueId>) -> (r: Vec<Value>)
    requires
        spec_ids_ok(view_values(values@), ids@),
    ensures
        view_values(r@) == spec_lookup(view_values(values@), ids@),
{
    let mut r: Vec<Value> = Vec::new();
    let mut j: usize = 0;
    while j < ids.len()
        invariant
            spec_ids_ok(view_values(values@), ids@),
            j <= ids@.len(),
            r@.len() == j,
            forall|k: int| 0 <= k < j ==> #[trigger] r@[k]@ == values@[ids@[k] as int]@,
        decreases ids@.len() - j,
    {
        assert(spec_id_ok(view_values(values@), ids@[j as int]));
        r.push(values[ids[j] as usize].clone_value());
        j = j + 1;
    }
    assert forall|k: int| 0 <= k < ids@.len() implies #[trigger] view_values(r@)[k] == spec_lookup(view_values(values@), ids@)[k] by {
        assert(spec_id_ok(view_values(values@), ids@[k]));
        assert(view_values(values@)[ids@[k] as int] == values@[ids@[k] as int]@);
        assert(view_values(r@)[k] == r@[k]@);
        assert(r@[k]@ == values@[ids@[k] as int]@);
    }
    assert(view_values(r@) =~= spec_lookup(view_values(values@), ids@));
    r
}

/// Checks one step against the value table.
#[verifier::loop_isolation(false)]
fn check_step(values: &Vec<Value>, vlen: u32, step: &TraceStep) -> (r: Option<StepFault>)
    requires
        vlen as int == values@.len(),
    ensures
        r == spec_step_fault(view_values(values@), *step),
{
    let ghost vs = view_values(values@);
    match step {
        TraceStep::PrimResult { op, args, result } => {
            if !id_ok(values, vlen, *result) || !ids_ok(values, vlen, args) {
                return Some(StepFault::IdOutOfRange);
            }
            let arg_values = lookup_values(values, args);
            if !crate::primitives::primitive_defined(op, arg_values.as_slice()) {
                return Some(StepFault::PrimitiveUndefined);
            }
            let computed = eval_primitive(op, arg_values.as_slice());
            if !computed.equals(&values[*result as usize]) {
                return Some(StepFault::PrimitiveMismatch);
            }
            None
        },
        TraceStep::Branch { scrutinee, chosen_tag } => {
            if !id_ok(values, vlen, *scrutinee) {
                return Some(StepFault::IdOutOfRange);
            }
            if values[*scrutinee as usize].tag() != *chosen_tag {
                return Some(StepFault::BranchTagMismatch);
            }
            None
        },
        TraceStep::CtorCreate { tag, fields, scalar_data, result } => {
            if !id_ok(values, vlen, *result) || !ids_ok(values, vlen, fields) {
                return Some(StepFault::IdOutOfRange);
            }
            let obj = &values[*result as usize];
            assert(vs[*result as int] == obj@);
            if obj.tag() != *tag {
                return Some(StepFault::CtorTagMismatch);
            }
            match obj {
                Value::Object { fields: obj_fields, scalars, .. } => {
                    if obj_fields.len() != fields.len() {
                        return Some(StepFault::CtorFieldCountMismatch);
                    }
                    let mut j: usize = 0;
                    while j < fields.len()
                        invariant
                            vlen as int == values@.len(),
                            spec_ids_ok(vs, fields@),
                            vs == view_values(values@),
                            obj_fields@.len() == fields@.len(),
                            (*result as int) < vs.len(),
                            vs[*result as int] == obj@,
                            spec_tag(obj@) == *tag,
                            j <= fields@.len(),
                            forall|k: int| 0 <= k < j ==> #[trigger] obj_fields@[k]@ == vs[fields@[k] as int],
                        decreases fields@.len() - j,
                    {
                        assert(spec_id_ok(vs, fields@[j as int]));
                        assert(vs[fields@[j as int] as int] == values@[fields@[j as int] as int]@);
                        if !obj_fields[j].equals(&values[fields[j] as usize]) {
                            assert(view_values(obj_fields@)[j as int] == obj_fields@[j as int]@);
                            assert(spec_lookup(vs, fields@)[j as int] == vs[fields@[j as int] as int]);
                            assert(view_values(obj_fields@)[j as int] != spec_lookup(vs, fields@)[j as int]);
                            assert(view_values(obj_fields@) != spec_lookup(vs, fields@));
                            assert(obj@ == vs[*result as int]);
                            assert(spec_tag(vs[*result as int]) == *tag);
                            assert(vs[*result as int] is Object);
                            assert(spec_step_fault(vs, *step) == Some(StepFault::CtorFieldMismatch));
                            return Some(StepFault::CtorFieldMismatch);
                        }
                        j = j + 1;
                    }
                    assert forall|k: int| 0 <= k < fields@.len() implies #[trigger] view_values(obj_fields@)[k] == spec_lookup(vs, fields@)[k] by {
                        assert(obj_fields@[k]@ == vs[fields@[k] as int]);
                    }
                    assert(view_values(obj_fields@) =~= spec_lookup(vs, fields@));
                    if !crate::value::bytes_equal(scalars, scalar_data) {
                        return Some(StepFault::CtorScalarMismatch);
                    }
                    None
                },
                _ => Some(StepFault::CtorNotObject),
            }
        },
        TraceStep::ProjResult { obj, idx, result } => {
            if !id_ok(values, vlen, *obj) || !id_ok(values, vlen, *result) {
                return Some(StepFault::IdOutOfRange);
            }
            let expected = values[*obj as usize].field(*idx as usize);
            if !expected.equals(&values[*result as usize]) {
                return Some(StepFault::ProjMismatch);
            }
            None
        },
        TraceStep::SetResult { obj, idx, val, result } => {
            if !id_ok(values, vlen, *obj) || !id_ok(values, vlen, *val) || !id_ok(values, vlen, *result) {
                return Some(StepFault::IdOutOfRange);
            }
            let mut expected = values[*obj as usize].clone_value();
            expected.set_field(*idx as usize, values[*val as usize].clone_value());
            if !expected.equals(&values[*result as usize]) {
                return Some(StepFault::SetMismatch);
            }
            None
        },
    }
}

fn magic_ok(magic: &[u8; 4]) -> (r: bool)
    ensures
        r == (magic@ == TRACE_MAGIC@),
{
    let want = TRACE_MAGIC;
    let ok = magic[0] == want[0] && magic[1] == want[1] && magic[2] == want[2] && magic[3] == want[3];
    if ok {
        assert(magic@ =~= want@);
    }
    ok
}

#[verifier::loop_isolation(false)]
/// Re-checks every step of a trace against its value table: each primitive
/// result is recomputed, each branch tag, constructor, projection and field
/// update compared with the values recorded; the first fault is reported.
pub fn check_trace(trace: &Trace) -> (r: Result<(), VerifyError>)
    ensures
        r == spec_verify_trace(*trace),
{
    if !magic_ok(&trace.header.magic) {
        return Err(VerifyError::BadMagic);
    }
    if trace.header.value_count as usize != trace.value_table.len() {
        return Err(VerifyError::ValueCountMismatch);
    }
    if trace.header.step_count as usize != trace.steps.len() {
        return Err(VerifyError::StepCountMismatch);
    }
    let vlen = trace.value_table.len() as u32;
    if !(trace.output_value_id < vlen) {
        return Err(VerifyError::OutputIdOutOfRange);
    }
    let values = &trace.value_table;
    let ghost vs = view_values(values@);
    let mut i: usize = 0;
    while i < trace.steps.len()
        invariant
            vlen as int == values@.len(),
            vs == view_values(values@),
            values == &trace.value_table,
            i <= trace.steps@.len(),
            spec_first_fault(vs, trace.steps@.take(i as int)) is None,
        decreases trace.steps@.len() - i,
    {
        let fault = check_step(values, vlen, &trace.steps[i]);
        proof {
            lemma_first_fault_push(vs, trace.steps@, i as int);
        }
        match fault {
            Some(f) => {
                proof {
                    lemma_first_fault_extend(vs, trace.steps@, i + 1);
                    assert(spec_first_fault(vs, trace.steps@) == Some((i as int, f)));
                    assert(vs == view_values(trace.value_table@));
                    assert(spec_verify_trace(*trace) == Err::<(), VerifyError>(VerifyError::Step { index: i, fault: f }));
                }
                return Err(VerifyError::Step { index: i, fault: f });
            },
            None => {},
        }
        i = i + 1;
    }
    assert(trace.steps@.take(trace.steps@.len() as int) =~= trace.steps@);
    Ok(())
}

/// Verifies a trace: its header agrees with its value table and steps, and
/// every step checks out. The trace must be valid; a verifier that meets an
/// invalid one aborts, and `check_trace` says which check it fails.
pub fn verify_trace(trace: &Trace)
    requires
        spec_verify_trace(*trace) is Ok,
{
    let r = check_trace(trace);
    assert(r is Ok);
}

} // verus!
