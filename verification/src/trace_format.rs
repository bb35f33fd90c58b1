use sha2::{Digest, Sha256};

use vstd::prelude::*;

use crate::trace_check::{
    lemma_first_fault_none, spec_first_fault, spec_id_ok, spec_ids_ok, spec_lookup, spec_refs_below, spec_step_fault,
    spec_step_refs, spec_steps_valid,
};
use crate::interpreter::Interpreter;
use crate::trace_check::spec_verify_trace;
use crate::trace_types::{model_steps, Trace, TraceHeader, TraceStep, ValueId, TRACE_MAGIC};
use crate::value::{le_byte, lemma_view_values, view_values, SValue, Value};

verus! {

/// The SHA-256 digest (FIPS 180-4) of a byte string.
pub uninterp spec fn sha256_digest(data: Seq<u8>) -> Seq<u8>;

/// `sha2::Sha256`, fed `data` in one update and finalized. Trusted: the
/// returned array is the digest of `data` and nothing else; that it is the
/// SHA-256 function is what `sha2` promises and is not proved here.
#[verifier::external_body]
pub fn sha256(data: &[u8]) -> (r: [u8; 32])
    ensures
        r@ == sha256_digest(data@),
{
    let mut hasher = Sha256::new();
    hasher.update(data);
    let result = hasher.finalize();
    let mut hash = [0u8; 32];
    hash.copy_from_slice(&result);
    hash
}


broadcast use lemma_view_values;

/// Whether some step refers to value `id`.
pub open spec fn spec_refers(steps: Seq<TraceStep>, id: int) -> bool
    decreases steps.len(),
{
    steps.len() > 0 && (spec_refers(steps.drop_last(), id) || spec_step_refs(steps.last()).contains(id as u32)
        && 0 <= id <= u32::MAX)
}

/// Which of the first `n` values a trace keeps: the output and those that a
/// step refers to.
pub open spec fn spec_marks(steps: Seq<TraceStep>, out: ValueId, n: nat) -> Seq<bool> {
    Seq::new(n, |k: int| k == out as int || spec_refers(steps, k))
}

/// How many of the first `k` values are kept.
pub open spec fn spec_count_marked(marks: Seq<bool>, k: int) -> nat
    decreases k,
{
    if k <= 0 {
        0
    } else {
        spec_count_marked(marks, k - 1) + if marks[k - 1] { 1nat } else { 0nat }
    }
}

/// The kept ones among the first `k` values, in order.
pub open spec fn spec_keep<T>(vs: Seq<T>, marks: Seq<bool>, k: int) -> Seq<T>
    decreases k,
{
    if k <= 0 {
        Seq::empty()
    } else if marks[k - 1] {
        spec_keep(vs, marks, k - 1).push(vs[k - 1])
    } else {
        spec_keep(vs, marks, k - 1)
    }
}

/// The new id of each kept value: the number of kept values before it.
pub open spec fn spec_rank_map(marks: Seq<bool>) -> Seq<u32> {
    Seq::new(marks.len(), |k: int| if marks[k] { spec_count_marked(marks, k) as u32 } else { 0u32 })
}

/// Ids renumbered through a map.
pub open spec fn spec_remap_ids(ids: Seq<ValueId>, m: Seq<u32>) -> Seq<ValueId> {
    Seq::new(ids.len(), |j: int| m[ids[j] as int])
}

/// `new` is `old` with every value id renumbered through `m`.
pub open spec fn spec_is_remap(new: TraceStep, old: TraceStep, m: Seq<u32>) -> bool {
    match (new, old) {
        (TraceStep::PrimResult { op: o1, args: a1, result: r1 }, TraceStep::PrimResult { op: o2, args: a2, result: r2 }) =>
            o1 == o2 && a1@ == spec_remap_ids(a2@, m) && r1 == m[r2 as int],
        (TraceStep::Branch { scrutinee: s1, chosen_tag: t1 }, TraceStep::Branch { scrutinee: s2, chosen_tag: t2 }) =>
            t1 == t2 && s1 == m[s2 as int],
        (
            TraceStep::CtorCreate { tag: t1, fields: f1, scalar_data: d1, result: r1 },
            TraceStep::CtorCreate { tag: t2, fields: f2, scalar_data: d2, result: r2 },
        ) => t1 == t2 && f1@ == spec_remap_ids(f2@, m) && d1@ == d2@ && r1 == m[r2 as int],
        (TraceStep::ProjResult { obj: o1, idx: i1, result: r1 }, TraceStep::ProjResult { obj: o2, idx: i2, result: r2 }) =>
            i1 == i2 && o1 == m[o2 as int] && r1 == m[r2 as int],
        (
            TraceStep::SetResult { obj: o1, idx: i1, val: v1, result: r1 },
            TraceStep::SetResult { obj: o2, idx: i2, val: v2, result: r2 },
        ) => i1 == i2 && o1 == m[o2 as int] && v1 == m[v2 as int] && r1 == m[r2 as int],
        _ => false,
    }
}

/// `new` is the trace of `table`, `steps` and `out` with the values that no
/// step and not the output refers to dropped, the others kept in order, and
/// every id renumbered accordingly; the header counts what is left.
pub open spec fn spec_compacted(new: Trace, table: Seq<Value>, steps: Seq<TraceStep>, out: ValueId) -> bool {
    let marks = spec_marks(steps, out, table.len());
    let m = spec_rank_map(marks);
    &&& new.value_table@ == spec_keep(table, marks, table.len() as int)
    &&& new.steps@.len() == steps.len()
    &&& forall|i: int| 0 <= i < steps.len() ==> spec_is_remap(#[trigger] new.steps@[i], steps[i], m)
    &&& new.output_value_id == m[out as int]
    &&& new.header.value_count == new.value_table@.len() as u32
    &&& new.header.step_count == new.steps@.len() as u64
}

proof fn lemma_count_bounds(marks: Seq<bool>, k: int)
    requires
        0 <= k,
    ensures
        spec_count_marked(marks, k) <= k,
    decreases k,
{
    if k > 0 {
        lemma_count_bounds(marks, k - 1);
    }
}

proof fn lemma_count_mono(marks: Seq<bool>, j: int, k: int)
    requires
        0 <= j <= k,
    ensures
        spec_count_marked(marks, j) <= spec_count_marked(marks, k),
        j < k && marks[j] ==> spec_count_marked(marks, j) < spec_count_marked(marks, k),
    decreases k - j,
{
    if j < k {
        lemma_count_mono(marks, j, k - 1);
        if j < k - 1 {
            lemma_count_mono(marks, j + 1, k - 1);
        }
    }
}

/// The kept values are as many as the marks among the first `k`.
pub proof fn lemma_keep_len<T>(vs: Seq<T>, marks: Seq<bool>, k: int)
    requires
        0 <= k,
    ensures
        spec_keep(vs, marks, k).len() == spec_count_marked(marks, k),
    decreases k,
{
    if k > 0 {
        lemma_keep_len(vs, marks, k - 1);
    }
}

/// A kept value sits at its rank among the kept ones.
pub proof fn lemma_keep_at<T>(vs: Seq<T>, marks: Seq<bool>, k: int, j: int)
    requires
        0 <= j < k,
        marks[j],
    ensures
        spec_count_marked(marks, j) < spec_keep(vs, marks, k).len(),
        spec_keep(vs, marks, k)[spec_count_marked(marks, j) as int] == vs[j],
    decreases k,
{
    lemma_keep_len(vs, marks, k);
    lemma_keep_len(vs, marks, k - 1);
    if j < k - 1 {
        lemma_count_mono(marks, j, k - 1);
        lemma_keep_at(vs, marks, k - 1, j);
    }
}

/// The models of the kept values are the kept models.
pub proof fn lemma_keep_view(vs: Seq<Value>, marks: Seq<bool>, k: int)
    requires
        0 <= k <= vs.len(),
        k <= marks.len(),
    ensures
        view_values(spec_keep(vs, marks, k)) == spec_keep(view_values(vs), marks, k),
    decreases k,
{
    if k > 0 {
        lemma_keep_view(vs, marks, k - 1);
        assert(view_values(spec_keep(vs, marks, k)) =~= spec_keep(view_values(vs), marks, k));
    }
}

/// A referring step makes its ids referred to.
proof fn lemma_refers(steps: Seq<TraceStep>, i: int, j: int)
    requires
        0 <= i < steps.len(),
        0 <= j < spec_step_refs(steps[i]).len(),
    ensures
        spec_refers(steps, spec_step_refs(steps[i])[j] as int),
    decreases steps.len(),
{
    if i < steps.len() - 1 {
        assert(steps.drop_last()[i] == steps[i]);
        lemma_refers(steps.drop_last(), i, j);
    } else {
        assert(spec_step_refs(steps.last())[j] == spec_step_refs(steps[i])[j]);
    }
}

/// A referred id is a 32-bit id.
proof fn lemma_refers_u32(steps: Seq<TraceStep>, id: int)
    requires
        spec_refers(steps, id),
    ensures
        0 <= id <= u32::MAX,
    decreases steps.len(),
{
    if spec_refers(steps.drop_last(), id) {
        lemma_refers_u32(steps.drop_last(), id);
    }
}

/// A step renumbered through a map under which each of its ids names, in
/// the new table, the value it named in the old one, checks out as it did.
pub proof fn lemma_remapped_step_valid(values: Seq<SValue>, kept: Seq<SValue>, m: Seq<u32>, old: TraceStep, new: TraceStep)
    requires
        spec_step_fault(values, old) is None,
        spec_is_remap(new, old, m),
        forall|j: int| 0 <= j < spec_step_refs(old).len() ==> {
            let x = #[trigger] spec_step_refs(old)[j] as int;
            &&& x < m.len()
            &&& (m[x] as int) < kept.len()
            &&& kept[m[x] as int] == values[x]
        },
    ensures
        spec_step_fault(kept, new) is None,
{
    let refs = spec_step_refs(old);
    match (new, old) {
        (TraceStep::PrimResult { args: a1, result: r1, .. }, TraceStep::PrimResult { args: a2, result: r2, .. }) => {
            assert(refs[a2@.len() as int] == r2);
            assert forall|j: int| 0 <= j < a2@.len() implies spec_id_ok(kept, #[trigger] a1@[j])
                && kept[a1@[j] as int] == values[a2@[j] as int] by {
                assert(refs[j] == a2@[j]);
            }
            assert(spec_lookup(kept, a1@) =~= spec_lookup(values, a2@));
        },
        (TraceStep::Branch { .. }, TraceStep::Branch { scrutinee, .. }) => {
            assert(refs[0] == scrutinee);
        },
        (TraceStep::CtorCreate { fields: f1, result: r1, .. }, TraceStep::CtorCreate { fields: f2, result: r2, .. }) => {
            assert(refs[f2@.len() as int] == r2);
            assert forall|j: int| 0 <= j < f2@.len() implies spec_id_ok(kept, #[trigger] f1@[j])
                && kept[f1@[j] as int] == values[f2@[j] as int] by {
                assert(refs[j] == f2@[j]);
            }
            assert(spec_lookup(kept, f1@) =~= spec_lookup(values, f2@));
        },
        (TraceStep::ProjResult { .. }, TraceStep::ProjResult { obj, result, .. }) => {
            assert(refs[0] == obj);
            assert(refs[1] == result);
        },
        (TraceStep::SetResult { .. }, TraceStep::SetResult { obj, val, result, .. }) => {
            assert(refs[0] == obj);
            assert(refs[1] == val);
            assert(refs[2] == result);
        },
        _ => {},
    }
}

/// Dropping the values that no step and not the output refers to, and
/// renumbering the others in order, keeps a trace whose steps check out one
/// whose steps check out, with its output in range; a table that fits 32-bit
/// ids keeps its count exact.
pub proof fn lemma_compaction_keeps_trace_valid(new: Trace, table: Seq<Value>, steps: Seq<TraceStep>, out: ValueId)
    requires
        spec_steps_valid(view_values(table), steps),
        (out as int) < table.len(),
        table.len() <= u32::MAX,
        spec_compacted(new, table, steps, out),
    ensures
        spec_steps_valid(view_values(new.value_table@), new.steps@),
        spec_first_fault(view_values(new.value_table@), new.steps@) is None,
        (new.output_value_id as int) < new.value_table@.len(),
        new.header.value_count as int == new.value_table@.len(),
        new.header.step_count as int == new.steps@.len(),
{
    let n = table.len() as int;
    let marks = spec_marks(steps, out, table.len());
    let m = spec_rank_map(marks);
    let values = view_values(table);
    let kept = view_values(new.value_table@);
    lemma_keep_view(table, marks, n);
    lemma_keep_len(table, marks, n);
    lemma_count_bounds(marks, n);
    assert forall|x: int| 0 <= x < n && marks[x] implies (m[x] as int) < kept.len() && kept[m[x] as int] == values[x] by {
        lemma_count_bounds(marks, x);
        if spec_refers(steps, x) {
            lemma_refers_u32(steps, x);
        }
        lemma_keep_at(table, marks, n, x);
    }
    assert forall|i: int| 0 <= i < new.steps@.len() implies #[trigger] spec_step_fault(kept, new.steps@[i]) is None by {
        assert(spec_step_fault(values, steps[i]) is None);
        assert forall|j: int| 0 <= j < spec_step_refs(steps[i]).len() implies {
            let x = #[trigger] spec_step_refs(steps[i])[j] as int;
            &&& x < m.len()
            &&& (m[x] as int) < kept.len()
            &&& kept[m[x] as int] == values[x]
        } by {
            lemma_refers(steps, i, j);
            assert(spec_step_fault(values, steps[i]) is None);
            lemma_step_refs_in_range(values, steps[i], j);
        }
        lemma_remapped_step_valid(values, kept, m, steps[i], new.steps@[i]);
    }
    lemma_first_fault_none(kept, new.steps@);
    assert(marks[out as int]);
    assert(new.steps@.len() == new.steps.len());
}

/// A step renumbered through a map under which each of its ids names, in
/// the new table, the value it named in the old one, has the fault it had.
pub proof fn lemma_remapped_step_fault(values: Seq<SValue>, kept: Seq<SValue>, m: Seq<u32>, old: TraceStep, new: TraceStep)
    requires
        spec_is_remap(new, old, m),
        forall|j: int| 0 <= j < spec_step_refs(old).len() ==> {
            let x = #[trigger] spec_step_refs(old)[j] as int;
            &&& x < values.len()
            &&& x < m.len()
            &&& (m[x] as int) < kept.len()
            &&& kept[m[x] as int] == values[x]
        },
    ensures
        spec_step_fault(kept, new) == spec_step_fault(values, old),
{
    let refs = spec_step_refs(old);
    match (new, old) {
        (TraceStep::PrimResult { args: a1, result: r1, .. }, TraceStep::PrimResult { args: a2, result: r2, .. }) => {
            assert(refs[a2@.len() as int] == r2);
            assert forall|j: int| 0 <= j < a2@.len() implies spec_id_ok(kept, #[trigger] a1@[j]) && spec_id_ok(
                values,
                a2@[j],
            ) && kept[a1@[j] as int] == values[a2@[j] as int] by {
                assert(refs[j] == a2@[j]);
            }
            assert forall|j: int| 0 <= j < a2@.len() implies spec_id_ok(values, #[trigger] a2@[j]) by {
                assert(refs[j] == a2@[j]);
            }
            assert(spec_lookup(kept, a1@) =~= spec_lookup(values, a2@));
        },
        (TraceStep::Branch { .. }, TraceStep::Branch { scrutinee, .. }) => {
            assert(refs[0] == scrutinee);
        },
        (TraceStep::CtorCreate { fields: f1, result: r1, .. }, TraceStep::CtorCreate { fields: f2, result: r2, .. }) => {
            assert(refs[f2@.len() as int] == r2);
            assert forall|j: int| 0 <= j < f2@.len() implies spec_id_ok(kept, #[trigger] f1@[j]) && spec_id_ok(
                values,
                f2@[j],
            ) && kept[f1@[j] as int] == values[f2@[j] as int] by {
                assert(refs[j] == f2@[j]);
            }
            assert forall|j: int| 0 <= j < f2@.len() implies spec_id_ok(values, #[trigger] f2@[j]) by {
                assert(refs[j] == f2@[j]);
            }
            assert(spec_lookup(kept, f1@) =~= spec_lookup(values, f2@));
        },
        (TraceStep::ProjResult { .. }, TraceStep::ProjResult { obj, result, .. }) => {
            assert(refs[0] == obj);
            assert(refs[1] == result);
        },
        (TraceStep::SetResult { .. }, TraceStep::SetResult { obj, val, result, .. }) => {
            assert(refs[0] == obj);
            assert(refs[1] == val);
            assert(refs[2] == result);
        },
        _ => {},
    }
}

/// Compaction keeps a trace's meaning: each step of the compacted trace has
/// the fault (or none) that the step it came from had, so the compacted
/// trace verifies exactly when the trace did, and its output names the same
/// value.
pub proof fn lemma_compaction_preserves_meaning(old: Trace, new: Trace)
    requires
        spec_refs_below(old.steps@, old.value_table@.len()),
        (old.output_value_id as int) < old.value_table@.len(),
        old.header.value_count as usize == old.value_table@.len(),
        spec_compacted(new, old.value_table@, old.steps@, old.output_value_id),
        new.header.magic == old.header.magic,
    ensures
        forall|i: int| 0 <= i < new.steps@.len() ==> #[trigger] spec_step_fault(view_values(new.value_table@), new.steps@[i])
            == spec_step_fault(view_values(old.value_table@), old.steps@[i]),
        spec_steps_valid(view_values(new.value_table@), new.steps@) <==> spec_steps_valid(
            view_values(old.value_table@),
            old.steps@,
        ),
        (new.output_value_id as int) < new.value_table@.len(),
        new.value_table@[new.output_value_id as int]@ == old.value_table@[old.output_value_id as int]@,
        old.header.step_count as usize == old.steps@.len() ==> (spec_verify_trace(new) is Ok <==> spec_verify_trace(
            old,
        ) is Ok),
{
    let table = old.value_table@;
    let steps = old.steps@;
    let out = old.output_value_id;
    let n = table.len() as int;
    let marks = spec_marks(steps, out, table.len());
    let m = spec_rank_map(marks);
    let values = view_values(table);
    let kept = view_values(new.value_table@);
    lemma_keep_view(table, marks, n);
    lemma_keep_len(table, marks, n);
    lemma_count_bounds(marks, n);
    assert forall|x: int| 0 <= x < n && marks[x] implies (m[x] as int) < kept.len() && kept[m[x] as int] == values[x] by {
        lemma_count_bounds(marks, x);
        if spec_refers(steps, x) {
            lemma_refers_u32(steps, x);
        }
        lemma_keep_at(table, marks, n, x);
    }
    assert forall|i: int| 0 <= i < new.steps@.len() implies #[trigger] spec_step_fault(kept, new.steps@[i])
        == spec_step_fault(values, steps[i]) by {
        assert forall|j: int| 0 <= j < spec_step_refs(steps[i]).len() implies {
            let x = #[trigger] spec_step_refs(steps[i])[j] as int;
            &&& x < values.len()
            &&& x < m.len()
            &&& (m[x] as int) < kept.len()
            &&& kept[m[x] as int] == values[x]
        } by {
            lemma_refers(steps, i, j);
        }
        lemma_remapped_step_fault(values, kept, m, steps[i], new.steps@[i]);
    }
    assert(spec_steps_valid(kept, new.steps@) <==> spec_steps_valid(values, steps)) by {
        if spec_steps_valid(values, steps) {
            assert forall|i: int| 0 <= i < new.steps@.len() implies #[trigger] spec_step_fault(kept, new.steps@[i]) is None by {
                assert(spec_step_fault(values, steps[i]) is None);
            }
        }
        if spec_steps_valid(kept, new.steps@) {
            assert forall|i: int| 0 <= i < steps.len() implies #[trigger] spec_step_fault(values, steps[i]) is None by {
                assert(spec_step_fault(kept, new.steps@[i]) is None);
            }
        }
    }
    assert(marks[out as int]);
    lemma_count_bounds(marks, out as int);
    lemma_keep_at(table, marks, n, out as int);
    lemma_first_fault_none(kept, new.steps@);
    lemma_first_fault_none(values, steps);
}

/// With every one of the first `k` marks set, all `k` are counted.
proof fn lemma_count_all(marks: Seq<bool>, k: int)
    requires
        0 <= k <= marks.len(),
        forall|x: int| 0 <= x < k ==> #[trigger] marks[x],
    ensures
        spec_count_marked(marks, k) == k,
    decreases k,
{
    if k > 0 {
        lemma_count_all(marks, k - 1);
    }
}

/// With every one of the first `k` marks set, all `k` values are kept.
proof fn lemma_keep_all<T>(vs: Seq<T>, marks: Seq<bool>, k: int)
    requires
        0 <= k <= vs.len(),
        k <= marks.len(),
        forall|x: int| 0 <= x < k ==> #[trigger] marks[x],
    ensures
        spec_keep(vs, marks, k) == vs.take(k),
    decreases k,
{
    if k > 0 {
        lemma_keep_all(vs, marks, k - 1);
        assert(vs.take(k) =~= vs.take(k - 1).push(vs[k - 1]));
    }
}

/// Every rank below the count is the rank of some marked position.
proof fn lemma_rank_inverse(marks: Seq<bool>, n: int, k: int)
    requires
        0 <= k < spec_count_marked(marks, n),
        n <= marks.len(),
    ensures
        exists|x: int| 0 <= x < n && marks[x] && #[trigger] spec_count_marked(marks, x) == k,
    decreases n,
{
    if n > 0 {
        if k < spec_count_marked(marks, n - 1) {
            lemma_rank_inverse(marks, n - 1, k);
            let x = choose|x: int| 0 <= x < n - 1 && marks[x] && #[trigger] spec_count_marked(marks, x) == k;
            assert(0 <= x < n && marks[x] && spec_count_marked(marks, x) == k);
        } else {
            assert(marks[n - 1] && spec_count_marked(marks, n - 1) == k);
        }
    }
}

/// A referred id is referred to by some step.
proof fn lemma_refers_witness(steps: Seq<TraceStep>, id: int)
    requires
        spec_refers(steps, id),
    ensures
        exists|i: int, j: int|
            0 <= i < steps.len() && 0 <= j < spec_step_refs(steps[i]).len() && #[trigger] spec_step_refs(steps[i])[j] as int
                == id,
    decreases steps.len(),
{
    let init = steps.drop_last();
    if spec_refers(init, id) {
        lemma_refers_witness(init, id);
        let (i, j) = choose|i: int, j: int|
            0 <= i < init.len() && 0 <= j < spec_step_refs(init[i]).len() && #[trigger] spec_step_refs(init[i])[j] as int
                == id;
        assert(init[i] == steps[i]);
    } else {
        let r = spec_step_refs(steps.last());
        let j = choose|j: int| 0 <= j < r.len() && r[j] == id as u32;
        assert(spec_step_refs(steps[steps.len() - 1])[j] as int == id);
    }
}

/// A renumbered step refers, place by place, to the renumbered ids.
proof fn lemma_remap_refs(new: TraceStep, old: TraceStep, m: Seq<u32>, j: int)
    requires
        spec_is_remap(new, old, m),
        0 <= j < spec_step_refs(old).len(),
    ensures
        spec_step_refs(new).len() == spec_step_refs(old).len(),
        spec_step_refs(new)[j] == m[spec_step_refs(old)[j] as int],
{
}

/// A step renumbered through a map that fixes each of its ids is the step.
proof fn lemma_remap_fixed(new: TraceStep, old: TraceStep, m: Seq<u32>)
    requires
        spec_is_remap(new, old, m),
        forall|j: int| 0 <= j < spec_step_refs(old).len() ==> #[trigger] m[spec_step_refs(old)[j] as int] == spec_step_refs(
            old,
        )[j],
    ensures
        new.model() == old.model(),
{
    let refs = spec_step_refs(old);
    match (new, old) {
        (TraceStep::PrimResult { args: a1, .. }, TraceStep::PrimResult { args: a2, result: r2, .. }) => {
            assert(refs[a2@.len() as int] == r2);
            assert forall|j: int| 0 <= j < a2@.len() implies #[trigger] m[a2@[j] as int] == a2@[j] by {
                assert(refs[j] == a2@[j]);
            }
            assert(a1@ =~= a2@);
        },
        (TraceStep::Branch { .. }, TraceStep::Branch { scrutinee, .. }) => {
            assert(refs[0] == scrutinee);
        },
        (TraceStep::CtorCreate { fields: f1, .. }, TraceStep::CtorCreate { fields: f2, result: r2, .. }) => {
            assert(refs[f2@.len() as int] == r2);
            assert forall|j: int| 0 <= j < f2@.len() implies #[trigger] m[f2@[j] as int] == f2@[j] by {
                assert(refs[j] == f2@[j]);
            }
            assert(f1@ =~= f2@);
        },
        (TraceStep::ProjResult { .. }, TraceStep::ProjResult { obj, result, .. }) => {
            assert(refs[0] == obj);
            assert(refs[1] == result);
        },
        (TraceStep::SetResult { .. }, TraceStep::SetResult { obj, val, result, .. }) => {
            assert(refs[0] == obj);
            assert(refs[1] == val);
            assert(refs[2] == result);
        },
        _ => {},
    }
}

/// A kept value has an id that fits 32 bits.
proof fn lemma_marked_u32(steps: Seq<TraceStep>, out: ValueId, n: nat, x: int)
    requires
        0 <= x < n,
        spec_marks(steps, out, n)[x],
    ensures
        x <= u32::MAX,
{
    if x != out as int {
        lemma_refers_witness(steps, x);
    }
}

/// With no mark set at or beyond `b`, at most `b` values are counted.
proof fn lemma_count_limit(marks: Seq<bool>, n: int, b: int)
    requires
        0 <= b,
        n <= marks.len(),
        forall|x: int| b <= x < n ==> !#[trigger] marks[x],
    ensures
        spec_count_marked(marks, n) <= b,
    decreases n,
{
    if n > b {
        lemma_count_limit(marks, n - 1, b);
    } else if n > 0 {
        lemma_count_bounds(marks, n);
    }
}

/// Compacting a compacted trace changes nothing: it meets compaction's
/// precondition, every value in it is the output or referred to, and its
/// ids are already dense, so the same values, steps, output and counts
/// come out.
pub proof fn lemma_compaction_idempotent(old: Trace, mid: Trace, new: Trace)
    requires
        spec_refs_below(old.steps@, old.value_table@.len()),
        (old.output_value_id as int) < old.value_table@.len(),
        spec_compacted(mid, old.value_table@, old.steps@, old.output_value_id),
        spec_compacted(new, mid.value_table@, mid.steps@, mid.output_value_id),
    ensures
        spec_refs_below(mid.steps@, mid.value_table@.len()),
        (mid.output_value_id as int) < mid.value_table@.len(),
        new.value_table@ == mid.value_table@,
        model_steps(new.steps@) == model_steps(mid.steps@),
        new.output_value_id == mid.output_value_id,
        new.header.value_count == mid.header.value_count,
        new.header.step_count == mid.header.step_count,
{
    let table = old.value_table@;
    let steps = old.steps@;
    let out = old.output_value_id;
    let n = table.len() as int;
    let marks = spec_marks(steps, out, table.len());
    let m = spec_rank_map(marks);
    let kn = spec_count_marked(marks, n);
    lemma_keep_len(table, marks, n);
    lemma_count_bounds(marks, n);
    assert(mid.value_table@.len() == kn);
    // only ids that fit 32 bits are kept, so at most 2^32 values
    assert forall|x: int| u32::MAX + 1 <= x < n implies !#[trigger] marks[x] by {
        if marks[x] {
            lemma_marked_u32(steps, out, table.len(), x);
        }
    }
    lemma_count_limit(marks, n, u32::MAX + 1);
    // the output and every reference of the compacted trace are in range
    assert(marks[out as int]);
    lemma_count_mono(marks, out as int, n);
    assert forall|i: int, j: int|
        0 <= i < mid.steps@.len() && 0 <= j < spec_step_refs(mid.steps@[i]).len() implies (#[trigger] spec_step_refs(
        mid.steps@[i],
    )[j]) < kn by {
        assert(spec_is_remap(mid.steps@[i], steps[i], m));
        lemma_remap_refs(mid.steps@[i], steps[i], m, j);
        let x = spec_step_refs(steps[i])[j] as int;
        lemma_refers(steps, i, j);
        assert(marks[x]);
        lemma_count_mono(marks, x, n);
    }
    // every value of the compacted trace is kept again
    let k2 = mid.value_table@.len();
    let marks2 = spec_marks(mid.steps@, mid.output_value_id, k2);
    assert forall|k: int| 0 <= k < k2 implies #[trigger] marks2[k] by {
        lemma_rank_inverse(marks, n, k);
        let x = choose|x: int| 0 <= x < n && marks[x] && #[trigger] spec_count_marked(marks, x) == k;
        assert(m[x] as int == k) by {
            lemma_count_bounds(marks, x);
            lemma_marked_u32(steps, out, table.len(), x);
        }
        if x != out as int {
            assert(spec_refers(steps, x));
            lemma_refers_witness(steps, x);
            let (i, j) = choose|i: int, j: int|
                0 <= i < steps.len() && 0 <= j < spec_step_refs(steps[i]).len() && #[trigger] spec_step_refs(steps[i])[j] as int
                    == x;
            lemma_remap_refs(mid.steps@[i], steps[i], m, j);
            lemma_refers(mid.steps@, i, j);
        }
    }
    lemma_count_all(marks2, k2 as int);
    lemma_keep_all(mid.value_table@, marks2, k2 as int);
    assert(mid.value_table@.take(k2 as int) =~= mid.value_table@);
    let m2 = spec_rank_map(marks2);
    assert forall|k: int| 0 <= k < k2 implies #[trigger] m2[k] as int == k by {
        lemma_count_all(marks2, k);
    }
    assert forall|i: int| 0 <= i < new.steps@.len() implies #[trigger] new.steps@[i].model() == mid.steps@[i].model() by {
        assert forall|j: int| 0 <= j < spec_step_refs(mid.steps@[i]).len() implies #[trigger] m2[spec_step_refs(
            mid.steps@[i],
        )[j] as int] == spec_step_refs(mid.steps@[i])[j] by {
            let y = spec_step_refs(mid.steps@[i])[j];
            assert((y as int) < k2);
            assert(m2[y as int] as int == y as int);
        }
        lemma_remap_fixed(new.steps@[i], mid.steps@[i], m2);
    }
    assert(model_steps(new.steps@) =~= model_steps(mid.steps@));
    assert(m2[mid.output_value_id as int] as int == mid.output_value_id as int);
}

/// The ids of a step that checks out name values of the table.
proof fn lemma_step_refs_in_range(values: Seq<SValue>, step: TraceStep, j: int)
    requires
        spec_step_fault(values, step) is None,
        0 <= j < spec_step_refs(step).len(),
    ensures
        (spec_step_refs(step)[j] as int) < values.len(),
{
    match step {
        TraceStep::PrimResult { args, result, .. } => {
            if j < args@.len() {
                assert(spec_id_ok(values, args@[j]));
            }
        },
        TraceStep::CtorCreate { fields, result, .. } => {
            if j < fields@.len() {
                assert(spec_id_ok(values, fields@[j]));
            }
        },
        _ => {},
    }
}


fn copy_ids(ids: &Vec<ValueId>) -> (r: Vec<ValueId>)
    ensures
        r@ == ids@,
{
    let mut r: Vec<ValueId> = Vec::new();
    let mut i: usize = 0;
    while i < ids.len()
        invariant
            i <= ids@.len(),
            r@ == ids@.subrange(0, i as int),
        decreases ids@.len() - i,
    {
        r.push(ids[i]);
        i = i + 1;
        assert(r@ =~= ids@.subrange(0, i as int));
    }
    assert(r@ =~= ids@);
    r
}

/// The value ids a step refers to.
fn step_refs(step: &TraceStep) -> (r: Vec<ValueId>)
    ensures
        r@ == spec_step_refs(*step),
{
    match step {
        TraceStep::PrimResult { args, result, .. } => {
            let mut r = copy_ids(args);
            r.push(*result);
            r
        },
        TraceStep::Branch { scrutinee, .. } => {
            let r = vec![*scrutinee];
            assert(r@ =~= seq![*scrutinee]);
            r
        },
        TraceStep::CtorCreate { fields, result, .. } => {
            let mut r = copy_ids(fields);
            r.push(*result);
            r
        },
        TraceStep::ProjResult { obj, result, .. } => {
            let r = vec![*obj, *result];
            assert(r@ =~= seq![*obj, *result]);
            r
        },
        TraceStep::SetResult { obj, val, result, .. } => {
            let r = vec![*obj, *val, *result];
            assert(r@ =~= seq![*obj, *val, *result]);
            r
        },
    }
}

fn remap_ids(ids: &Vec<ValueId>, map: &Vec<u32>) -> (r: Vec<ValueId>)
    requires
        forall|j: int| 0 <= j < ids@.len() ==> (#[trigger] ids@[j] as int) < map@.len(),
    ensures
        r@ == spec_remap_ids(ids@, map@),
{
    let mut r: Vec<ValueId> = Vec::new();
    let mut i: usize = 0;
    while i < ids.len()
        invariant
            i <= ids@.len(),
            forall|j: int| 0 <= j < ids@.len() ==> (#[trigger] ids@[j] as int) < map@.len(),
            r@ == spec_remap_ids(ids@.subrange(0, i as int), map@),
        decreases ids@.len() - i,
    {
        r.push(map[ids[i] as usize]);
        i = i + 1;
        assert(r@ =~= spec_remap_ids(ids@.subrange(0, i as int), map@));
    }
    assert(ids@.subrange(0, ids@.len() as int) =~= ids@);
    r
}

/// A step with every value id renumbered through `map`.
fn remap_step(step: TraceStep, map: &Vec<u32>) -> (r: TraceStep)
    requires
        forall|j: int| 0 <= j < spec_step_refs(step).len() ==> (#[trigger] spec_step_refs(step)[j] as int) < map@.len(),
    ensures
        spec_is_remap(r, step, map@),
{
    let ghost refs = spec_step_refs(step);
    match step {
        TraceStep::PrimResult { op, args, result } => {
            proof {
                assert(refs[args@.len() as int] == result);
                assert forall|j: int| 0 <= j < args@.len() implies (#[trigger] args@[j] as int) < map@.len() by {
                    assert(refs[j] == args@[j]);
                }
            }
            let new_args = remap_ids(&args, map);
            TraceStep::PrimResult { op, args: new_args, result: map[result as usize] }
        },
        TraceStep::Branch { scrutinee, chosen_tag } => {
            proof {
                assert(refs[0] == scrutinee);
            }
            TraceStep::Branch { scrutinee: map[scrutinee as usize], chosen_tag }
        },
        TraceStep::CtorCreate { tag, fields, scalar_data, result } => {
            proof {
                assert(refs[fields@.len() as int] == result);
                assert forall|j: int| 0 <= j < fields@.len() implies (#[trigger] fields@[j] as int) < map@.len() by {
                    assert(refs[j] == fields@[j]);
                }
            }
            let new_fields = remap_ids(&fields, map);
            TraceStep::CtorCreate { tag, fields: new_fields, scalar_data, result: map[result as usize] }
        },
        TraceStep::ProjResult { obj, idx, result } => {
            proof {
                assert(refs[0] == obj);
                assert(refs[1] == result);
            }
            TraceStep::ProjResult { obj: map[obj as usize], idx, result: map[result as usize] }
        },
        TraceStep::SetResult { obj, idx, val, result } => {
            proof {
                assert(refs[0] == obj);
                assert(refs[1] == val);
                assert(refs[2] == result);
            }
            TraceStep::SetResult { obj: map[obj as usize], idx, val: map[val as usize], result: map[result as usize] }
        },
    }
}

/// Which values a trace keeps: the output and every value a step refers to.
fn mark_referenced(steps: &Vec<TraceStep>, out: ValueId, n: usize) -> (r: Vec<bool>)
    requires
        (out as int) < n,
        spec_refs_below(steps@, n as nat),
    ensures
        r@ == spec_marks(steps@, out, n as nat),
{
    let mut marks: Vec<bool> = Vec::new();
    while marks.len() < n
        invariant
            marks@.len() <= n,
            forall|k: int| 0 <= k < marks@.len() ==> !(#[trigger] marks@[k]),
        decreases n - marks@.len(),
    {
        marks.push(false);
    }
    marks.set(out as usize, true);
    proof {
        assert(steps@.take(0) =~= Seq::<TraceStep>::empty());
    }
    let mut i: usize = 0;
    while i < steps.len()
        invariant
            i <= steps@.len(),
            marks@.len() == n,
            (out as int) < n,
            spec_refs_below(steps@, n as nat),
            forall|k: int| 0 <= k < n ==> #[trigger] marks@[k] == (k == out as int || spec_refers(steps@.take(i as int), k)),
        decreases steps@.len() - i,
    {
        let refs = step_refs(&steps[i]);
        let ghost before = marks@;
        let mut j: usize = 0;
        while j < refs.len()
            invariant
                i < steps@.len(),
                j <= refs@.len(),
                refs@ == spec_step_refs(steps@[i as int]),
                marks@.len() == n,
                spec_refs_below(steps@, n as nat),
                forall|k: int| 0 <= k < n ==> #[trigger] marks@[k] == (before[k] || exists|jj: int| 0 <= jj < j && refs@[jj] as int == k),
            decreases refs@.len() - j,
        {
            proof {
                assert((refs@[j as int] as int) < n);
            }
            let ghost m0 = marks@;
            marks.set(refs[j] as usize, true);
            proof {
                assert forall|k: int| 0 <= k < n implies #[trigger] marks@[k] == (before[k] || exists|jj: int| 0 <= jj < j + 1 && refs@[jj] as int == k) by {
                    if k == refs@[j as int] as int {
                        assert(refs@[j as int] as int == k);
                    } else {
                        assert(marks@[k] == m0[k]);
                        if exists|jj: int| 0 <= jj < j + 1 && refs@[jj] as int == k {
                            let jj = choose|jj: int| 0 <= jj < j + 1 && refs@[jj] as int == k;
                            assert(jj < j);
                        }
                    }
                }
            }
            j = j + 1;
        }
        proof {
            let t1 = steps@.take(i as int + 1);
            assert(t1.drop_last() =~= steps@.take(i as int));
            assert(t1.last() == steps@[i as int]);
            assert forall|k: int| 0 <= k < n implies #[trigger] marks@[k] == (k == out as int || spec_refers(t1, k)) by {
                let in_refs = exists|jj: int| 0 <= jj < refs@.len() && refs@[jj] as int == k;
                if in_refs {
                    let jj = choose|jj: int| 0 <= jj < refs@.len() && refs@[jj] as int == k;
                    assert(refs@[jj] == k as u32);
                    assert(refs@.contains(k as u32));
                }
                if refs@.contains(k as u32) && 0 <= k <= u32::MAX {
                    let jj = choose|jj: int| 0 <= jj < refs@.len() && refs@[jj] == k as u32;
                    assert(refs@[jj] as int == k);
                }
            }
        }
        i = i + 1;
    }
    proof {
        assert(steps@.take(steps@.len() as int) =~= steps@);
    }
    assert(marks@ =~= spec_marks(steps@, out, n as nat));
    marks
}

/// Drops the values that no step and not the output refers to, keeps the
/// others in order, renumbers every id accordingly and recounts the header.
pub fn compact_trace(trace: &mut Trace)
    requires
        spec_refs_below(old(trace).steps@, old(trace).value_table@.len()),
        (old(trace).output_value_id as int) < old(trace).value_table@.len(),
    ensures
        spec_compacted(*final(trace), old(trace).value_table@, old(trace).steps@, old(trace).output_value_id),
        final(trace).header.magic == old(trace).header.magic,
        final(trace).header.ir_program_hash == old(trace).header.ir_program_hash,
        final(trace).header.input_hash == old(trace).header.input_hash,
        final(trace).header.output_hash == old(trace).header.output_hash,
{
    let n = trace.value_table.len();
    let out = trace.output_value_id;
    let marks = mark_referenced(&trace.steps, out, n);
    let ghost m = spec_rank_map(marks@);
    let mut old_table: Vec<Value> = Vec::new();
    std::mem::swap(&mut old_table, &mut trace.value_table);
    let ghost orig = old_table@;
    let mut map: Vec<u32> = Vec::new();
    let mut new_table: Vec<Value> = Vec::new();
    let mut k: usize = 0;
    while k < n
        invariant
            k <= n,
            n == orig.len(),
            old_table@.len() == n,
            marks@ == spec_marks(old(trace).steps@, out, n as nat),
            forall|kk: int| k <= kk < n ==> #[trigger] old_table@[kk] == orig[kk],
            map@.len() == k,
            forall|kk: int| 0 <= kk < k ==> #[trigger] map@[kk] == spec_rank_map(marks@)[kk],
            new_table@ == spec_keep(orig, marks@, k as int),
        decreases n - k,
    {
        if marks[k] {
            proof {
                lemma_keep_len(orig, marks@, k as int);
                lemma_count_bounds(marks@, k as int);
                if spec_refers(old(trace).steps@, k as int) {
                    lemma_refers_u32(old(trace).steps@, k as int);
                }
            }
            map.push(new_table.len() as u32);
            let mut v = Value::Irrelevant;
            old_table.set_and_swap(k, &mut v);
            new_table.push(v);
        } else {
            map.push(0);
        }
        k = k + 1;
    }
    proof {
        assert(map@ =~= spec_rank_map(marks@));
    }
    let mut old_steps: Vec<TraceStep> = Vec::new();
    std::mem::swap(&mut old_steps, &mut trace.steps);
    let ghost osteps = old_steps@;
    let mut new_steps: Vec<TraceStep> = Vec::new();
    let mut i: usize = 0;
    while i < old_steps.len()
        invariant
            i <= old_steps@.len(),
            old_steps@.len() == osteps.len(),
            osteps == old(trace).steps@,
            spec_refs_below(osteps, n as nat),
            map@.len() == n,
            forall|ii: int| i <= ii < osteps.len() ==> #[trigger] old_steps@[ii] == osteps[ii],
            new_steps@.len() == i,
            forall|ii: int| 0 <= ii < i ==> spec_is_remap(#[trigger] new_steps@[ii], osteps[ii], map@),
        decreases old_steps@.len() - i,
    {
        let mut s = TraceStep::Branch { scrutinee: 0, chosen_tag: 0 };
        old_steps.set_and_swap(i, &mut s);
        proof {
            assert(s == osteps[i as int]);
            assert forall|j: int| 0 <= j < spec_step_refs(s).len() implies (#[trigger] spec_step_refs(s)[j] as int) < map@.len() by {
                assert(spec_step_refs(osteps[i as int])[j] < n);
            }
        }
        let r = remap_step(s, &map);
        new_steps.push(r);
        i = i + 1;
    }
    let new_len = new_table.len();
    trace.value_table = new_table;
    trace.steps = new_steps;
    trace.output_value_id = map[out as usize];
    trace.header.value_count = #[verifier::truncate] (new_len as u32);
    trace.header.step_count = trace.steps.len() as u64;
}

/// The bytes an output value is committed by: the bytes of a byte array,
/// the eight little-endian bytes of a scalar, and otherwise the JSON text
/// given for it.
pub open spec fn spec_output_bytes(v: SValue, json: Seq<u8>) -> Seq<u8> {
    match v {
        SValue::ByteArray(b) => b,
        SValue::Scalar(x) => Seq::new(8, |k: int| le_byte(x, k)),
        _ => json,
    }
}

/// Assembles the trace of a finished run: the hashes of the program, the
/// input and the committed output bytes, the interpreter's value table and
/// steps (taken from it), and the output's id; then compacts it. A run whose
/// steps all check out gives a trace that the verifier accepts.
#[verifier::rlimit(50)]
pub fn build_trace(
    interpreter: &mut Interpreter,
    ir_program_bytes: &[u8],
    input_bytes: &[u8],
    output_json: &[u8],
    output_value_id: u32,
) -> (r: Trace)
    requires
        old(interpreter).spec_inv(),
        (output_value_id as int) < old(interpreter).value_registry.table@.len(),
    ensures
        r.header.magic@ == TRACE_MAGIC@,
        r.header.ir_program_hash@ == sha256_digest(ir_program_bytes@),
        r.header.input_hash@ == sha256_digest(input_bytes@),
        r.header.output_hash@ == sha256_digest(
            spec_output_bytes(old(interpreter).value_registry.table@[output_value_id as int]@, output_json@),
        ),
        spec_compacted(r, old(interpreter).value_registry.table@, old(interpreter).trace_steps@, output_value_id),
        spec_verify_trace(r) is Ok <==> spec_steps_valid(
            view_values(old(interpreter).value_registry.table@),
            old(interpreter).trace_steps@,
        ),
        final(interpreter).value_registry.table@.len() == 0,
        final(interpreter).trace_steps@.len() == 0,
        final(interpreter).decls@ == old(interpreter).decls@,
        final(interpreter).extern_stubs@ == old(interpreter).extern_stubs@,
        final(interpreter).spec_inv(),
{
    let ir_program_hash = sha256(ir_program_bytes);
    let input_hash = sha256(input_bytes);
    let output_bytes = match interpreter.value_registry.table[output_value_id as usize].serialize_to_bytes() {
        Some(b) => b,
        None => vstd::slice::slice_to_vec(output_json),
    };
    let output_hash = sha256(output_bytes.as_slice());
    let mut value_table: Vec<Value> = Vec::new();
    std::mem::swap(&mut value_table, &mut interpreter.value_registry.table);
    let mut steps: Vec<TraceStep> = Vec::new();
    std::mem::swap(&mut steps, &mut interpreter.trace_steps);
    let ghost table0 = value_table@;
    let ghost steps0 = steps@;
    let header = TraceHeader {
        magic: TRACE_MAGIC,
        ir_program_hash,
        input_hash,
        output_hash,
        value_count: value_table.len() as u32,
        step_count: steps.len() as u64,
    };
    let mut trace = Trace { header, value_table, steps, output_value_id };
    let ghost pre = trace;
    proof {
        assert(pre.value_table@ == table0);
        assert(pre.steps@ == steps0);
        assert(table0.len() <= u32::MAX);
        assert(pre.header.value_count as usize == pre.value_table@.len());
        assert(spec_refs_below(steps0, table0.len()));
    }
    compact_trace(&mut trace);
    proof {
        lemma_compaction_preserves_meaning(pre, trace);
        assert(pre.header.step_count as usize == pre.steps@.len());
        assert(pre.header.magic@ == TRACE_MAGIC@);
        lemma_first_fault_none(view_values(table0), steps0);
        assert(spec_verify_trace(pre) is Ok <==> spec_steps_valid(view_values(table0), steps0));
        if spec_steps_valid(view_values(table0), steps0) {
            lemma_compaction_keeps_trace_valid(trace, table0, steps0, output_value_id);
        }
        assert(view_values(interpreter.value_registry.table@) =~= Seq::<SValue>::empty());
    }
    trace
}

} // verus!
