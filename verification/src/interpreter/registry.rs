use std::collections::HashMap;

use vstd::prelude::*;

use crate::trace_types::{STraceStep, ValueId};
use crate::value::{le_byte, lemma_view_values, view_values, SValue, Value};

verus! {

broadcast use {vstd::std_specs::hash::group_hash_axioms, lemma_view_values};

/// The value table of a trace under construction. A value that is already
/// in the table is not added again: its fingerprint leads to the entries
/// that may hold it, and an entry equal to it is reused.
#[derive(Debug)]
pub struct ValueRegistry {
    pub table: Vec<Value>,
    pub index: HashMap<u64, Vec<ValueId>>,
}

/// FNV-1a's offset basis.
pub const FNV_OFFSET: u64 = 0xcbf29ce484222325;

/// FNV-1a's prime.
pub const FNV_PRIME: u64 = 0x100000001b3;

/// FNV-1a's step: one byte mixed into the hash.
pub open spec fn spec_mix_byte(h: u64, b: u8) -> u64 {
    vstd::wrapping::u64_specs::wrapping_mul(h ^ (b as u64), FNV_PRIME)
}

/// Bytes mixed in one after the other.
pub open spec fn spec_mix_seq(h: u64, bs: Seq<u8>) -> u64
    decreases bs.len(),
{
    if bs.len() == 0 {
        h
    } else {
        spec_mix_byte(spec_mix_seq(h, bs.drop_last()), bs.last())
    }
}

/// A word mixed in as its eight little-endian bytes.
pub open spec fn spec_mix_u64(h: u64, x: u64) -> u64 {
    spec_mix_seq(h, Seq::new(8, |k: int| le_byte(x, k)))
}

/// A byte string mixed in after its length.
pub open spec fn spec_mix_bytes(h: u64, bs: Seq<u8>) -> u64 {
    spec_mix_seq(spec_mix_u64(h, bs.len() as u64), bs)
}

/// The first `k` values of a sequence mixed in after its length.
pub open spec fn spec_mix_values(h: u64, vs: Seq<SValue>, k: int) -> u64
    decreases vs, k,
{
    if k <= 0 || k > vs.len() {
        spec_mix_u64(h, vs.len() as u64)
    } else {
        spec_mix_value(spec_mix_values(h, vs, k - 1), vs[k - 1])
    }
}

/// A value mixed in: a variant byte, then its contents.
pub open spec fn spec_mix_value(h: u64, v: SValue) -> u64
    decreases v, 0int,
{
    match v {
        SValue::Scalar(x) => spec_mix_u64(spec_mix_byte(h, 0), x),
        SValue::Object { tag, fields, scalars } => spec_mix_bytes(
            spec_mix_values(spec_mix_u64(spec_mix_byte(h, 1), tag as u64), fields, fields.len() as int),
            scalars,
        ),
        SValue::Array(a) => spec_mix_values(spec_mix_byte(h, 2), a, a.len() as int),
        SValue::ByteArray(b) => spec_mix_bytes(spec_mix_byte(h, 3), b),
        SValue::Closure { fn_id, arity, captured } => spec_mix_values(
            spec_mix_u64(spec_mix_bytes(spec_mix_byte(h, 4), vstd::utf8::encode_utf8(fn_id)), arity as u64),
            captured,
            captured.len() as int,
        ),
        SValue::Nat(b) => spec_mix_bytes(spec_mix_byte(h, 5), b),
        SValue::Str(t) => spec_mix_bytes(spec_mix_byte(h, 6), vstd::utf8::encode_utf8(t)),
        SValue::Irrelevant => spec_mix_byte(h, 7),
    }
}

/// The fingerprint under which the index files a value.
pub open spec fn spec_fingerprint(v: SValue) -> u64 {
    spec_mix_value(FNV_OFFSET, v)
}

fn mix_byte(h: u64, b: u8) -> (r: u64)
    ensures
        r == spec_mix_byte(h, b),
{
    (h ^ (b as u64)).wrapping_mul(FNV_PRIME)
}

fn mix_slice(h: u64, bytes: &[u8]) -> (r: u64)
    ensures
        r == spec_mix_seq(h, bytes@),
{
    let mut h1 = h;
    let mut i: usize = 0;
    while i < bytes.len()
        invariant
            i <= bytes@.len(),
            h1 == spec_mix_seq(h, bytes@.subrange(0, i as int)),
        decreases bytes@.len() - i,
    {
        proof {
            assert(bytes@.subrange(0, i as int + 1).drop_last() =~= bytes@.subrange(0, i as int));
        }
        h1 = mix_byte(h1, bytes[i]);
        i = i + 1;
    }
    assert(bytes@.subrange(0, bytes@.len() as int) =~= bytes@);
    h1
}

fn mix_u64(h: u64, x: u64) -> (r: u64)
    ensures
        r == spec_mix_u64(h, x),
{
    let b = crate::value::le_bytes(x, 8);
    mix_slice(h, b.as_slice())
}

fn mix_bytes(h: u64, bytes: &[u8]) -> (r: u64)
    ensures
        r == spec_mix_bytes(h, bytes@),
{
    let h1 = mix_u64(h, bytes.len() as u64);
    mix_slice(h1, bytes)
}

fn mix_values(h: u64, vs: &Vec<Value>) -> (r: u64)
    ensures
        r == spec_mix_values(h, view_values(vs@), vs@.len() as int),
    decreases vs,
{
    let mut h1 = mix_u64(h, vs.len() as u64);
    let mut i: usize = 0;
    while i < vs.len()
        invariant
            i <= vs@.len(),
            h1 == spec_mix_values(h, view_values(vs@), i as int),
        decreases vs@.len() - i,
    {
        proof {
            vstd::std_specs::vec::axiom_vec_index_decreases(*vs, i as int);
        }
        h1 = mix_value(h1, &vs[i]);
        i = i + 1;
    }
    h1
}

/// FNV-1a over the structure of a value; equal values get equal fingerprints.
fn mix_value(h: u64, v: &Value) -> (r: u64)
    ensures
        r == spec_mix_value(h, v@),
    decreases v,
{
    match v {
        Value::Scalar(x) => mix_u64(mix_byte(h, 0), *x),
        Value::Object { tag, fields, scalars } => {
            let h = mix_u64(mix_byte(h, 1), *tag as u64);
            let h = mix_values(h, fields);
            mix_bytes(h, scalars.as_slice())
        },
        Value::Array(a) => mix_values(mix_byte(h, 2), a),
        Value::ByteArray(b) => mix_bytes(mix_byte(h, 3), b.as_slice()),
        Value::Closure { fn_id, arity, captured } => {
            let h = mix_bytes(mix_byte(h, 4), fn_id.as_str().as_bytes());
            let h = mix_u64(h, *arity as u64);
            mix_values(h, captured)
        },
        Value::Nat(b) => mix_bytes(mix_byte(h, 5), b.as_slice()),
        Value::Str(s) => mix_bytes(mix_byte(h, 6), s.as_str().as_bytes()),
        Value::Irrelevant => mix_byte(h, 7),
    }
}

fn fingerprint(v: &Value) -> (r: u64)
    ensures
        r == spec_fingerprint(v@),
{
    mix_value(FNV_OFFSET, v)
}

/// Registering a value in a table without duplicates: the id of the equal
/// entry if there is one, else a new entry at the end; `None` when the
/// table has no room for it.
pub open spec fn spec_register(table: Seq<SValue>, v: SValue) -> Option<(Seq<SValue>, u32)> {
    if table.contains(v) {
        Some((table, table.index_of(v) as u32))
    } else if table.len() >= u32::MAX {
        None
    } else {
        Some((table.push(v), table.len() as u32))
    }
}

/// No value occurs twice in a table.
pub open spec fn spec_distinct(table: Seq<SValue>) -> bool {
    forall|a: int, b: int| 0 <= a < b < table.len() ==> table[a] != table[b]
}

/// Registering a value a second time gives the same id and leaves the
/// table as the first registration left it; a table without duplicates
/// keeps none.
pub proof fn lemma_register_idempotent(table: Seq<SValue>, v: SValue)
    requires
        spec_distinct(table),
    ensures
        match spec_register(table, v) {
            Some((t2, id)) => spec_distinct(t2) && spec_register(t2, v) == Some((t2, id)),
            None => true,
        },
{
    if !table.contains(v) && table.len() < u32::MAX {
        let t2 = table.push(v);
        assert(t2[table.len() as int] == v);
        assert(t2.contains(v));
        let k = t2.index_of(v);
        assert(t2[k] == v);
        if k < table.len() {
            assert(table[k] == v);
        }
        assert(k == table.len());
        assert forall|a: int, b: int| 0 <= a < b < t2.len() implies t2[a] != t2[b] by {
            if b == table.len() {
                assert(t2[a] == table[a]);
            } else {
                assert(t2[a] == table[a] && t2[b] == table[b]);
            }
        }
    }
}

/// A value table and the steps recorded against it.
pub struct SRec {
    pub table: Seq<SValue>,
    pub steps: Seq<STraceStep>,
}

/// Registering values one after another: the table after the last and the
/// ids in order; `None` when one of them finds no room.
pub open spec fn spec_register_all(table: Seq<SValue>, vals: Seq<SValue>) -> Option<(Seq<SValue>, Seq<u32>)>
    decreases vals.len(),
{
    if vals.len() == 0 {
        Some((table, Seq::empty()))
    } else {
        match spec_register_all(table, vals.drop_last()) {
            None => None,
            Some((t, ids)) => match spec_register(t, vals.last()) {
                None => None,
                Some((t2, id)) => Some((t2, ids.push(id))),
            },
        }
    }
}

/// Registering a value in a table of at most 2^32 - 1 entries gives an id
/// under which the table holds that value;
/// the table keeps every earlier entry and grows only when the value was not
/// in it yet, by that one value; it fails only when a new value finds the
/// table full.
pub proof fn lemma_register_meaning(table: Seq<SValue>, v: SValue)
    requires
        table.len() <= u32::MAX,
    ensures
        match spec_register(table, v) {
            Some((t2, id)) => {
                &&& 0 <= id < t2.len()
                &&& t2[id as int] == v
                &&& t2.len() >= table.len()
                &&& forall|k: int| 0 <= k < table.len() ==> #[trigger] t2[k] == table[k]
                &&& table.contains(v) ==> t2 == table
                &&& !table.contains(v) ==> t2 == table.push(v) && id == table.len()
            },
            None => !table.contains(v) && table.len() >= u32::MAX,
        },
{
    if table.contains(v) {
        let i = table.index_of(v);
        assert(table[i] == v);
    }
}

/// Registering values one after another finds room whenever the table has
/// room for all of them: every value gets an id under which the final table
/// holds it, and the table keeps its earlier entries.
pub proof fn lemma_register_all_some(table: Seq<SValue>, vals: Seq<SValue>)
    requires
        table.len() + vals.len() < u32::MAX,
    ensures
        spec_register_all(table, vals) matches Some((t2, ids)) && {
            &&& ids.len() == vals.len()
            &&& table.len() <= t2.len() <= table.len() + vals.len()
            &&& forall|k: int| 0 <= k < table.len() ==> #[trigger] t2[k] == table[k]
            &&& forall|j: int| 0 <= j < vals.len() ==> 0 <= #[trigger] ids[j] < t2.len() && t2[ids[j] as int] == vals[j]
        },
    decreases vals.len(),
{
    if vals.len() > 0 {
        let init = vals.drop_last();
        lemma_register_all_some(table, init);
        let (t1, ids1) = spec_register_all(table, init)->Some_0;
        lemma_register_meaning(t1, vals.last());
        let (t2, id) = spec_register(t1, vals.last())->Some_0;
        let ids = ids1.push(id);
        assert forall|j: int| 0 <= j < vals.len() implies 0 <= #[trigger] ids[j] < t2.len() && t2[ids[j] as int]
            == vals[j] by {
            if j < init.len() {
                assert(ids[j] == ids1[j]);
                assert(init[j] == vals[j]);
            }
        }
    }
}

/// A value that finds no room stops the registration of all that follow.
pub proof fn lemma_register_all_none_extend(table: Seq<SValue>, vals: Seq<SValue>, j: int)
    requires
        0 <= j <= vals.len(),
        spec_register_all(table, vals.take(j)) is None,
    ensures
        spec_register_all(table, vals) is None,
    decreases vals.len() - j,
{
    if j < vals.len() {
        assert(vals.take(j + 1).drop_last() =~= vals.take(j));
        lemma_register_all_none_extend(table, vals, j + 1);
    } else {
        assert(vals.take(j) =~= vals);
    }
}

impl ValueRegistry {
    /// Every entry is filed in the index under its fingerprint, and no two
    /// entries are equal.
    pub open spec fn spec_wf(&self) -> bool {
        &&& self.table@.len() <= u32::MAX
        &&& forall|id: int|
            0 <= id < self.table@.len() ==> {
                let fp = spec_fingerprint(#[trigger] self.table@[id]@);
                self.index@.contains_key(fp) && self.index@[fp]@.contains(id as u32)
            }
        &&& forall|i: int, j: int|
            0 <= i < j < self.table@.len() ==> #[trigger] self.table@[i]@ != #[trigger] self.table@[j]@
    }

    pub fn new() -> (r: Self)
        ensures
            r.table@.len() == 0,
            r.index@ == Map::<u64, Vec<ValueId>>::empty(),
            r.spec_wf(),
    {
        ValueRegistry { table: Vec::new(), index: HashMap::new() }
    }

    /// The id of an entry equal to `v`, adding `v` when there is none;
    /// `None` only when the table already holds `u32::MAX` entries.
    /// Existing entries are never changed, and a value that the table
    /// already holds is not added again.
    pub fn register(&mut self, v: &Value) -> (r: Option<ValueId>)
        ensures
            old(self).table@.len() <= final(self).table@.len() <= old(self).table@.len() + 1,
            old(self).table@.len() <= u32::MAX ==> final(self).table@.len() <= u32::MAX,
            forall|k: int| 0 <= k < old(self).table@.len() ==> #[trigger] final(self).table@[k] == old(self).table@[k],
            match r {
                Some(id) => (id as int) < final(self).table@.len() && final(self).table@[id as int]@ == v@,
                None => old(self).table@.len() >= u32::MAX && final(self).table@ == old(self).table@,
            },
            old(self).table@.len() < u32::MAX ==> r is Some,
            old(self).spec_wf() ==> match spec_register(view_values(old(self).table@), v@) {
                None => r is None,
                Some((t, id)) => r == Some(id) && view_values(final(self).table@) == t,
            },
            old(self).spec_wf() ==> final(self).spec_wf(),
            old(self).spec_wf() && (exists|k: int| 0 <= k < old(self).table@.len() && #[trigger] old(self).table@[k]@ == v@)
                ==> final(self).table@ == old(self).table@ && r is Some,
    {
        let fp = fingerprint(v);
        match self.index.get(&fp) {
            Some(ids) => {
                let mut j: usize = 0;
                while j < ids.len()
                    invariant
                        j <= ids@.len(),
                        forall|k: int| 0 <= k < j ==> !((#[trigger] ids@[k] as int) < self.table@.len()
                            && self.table@[ids@[k] as int]@ == v@),
                    decreases ids@.len() - j,
                {
                    let id = ids[j];
                    if (id as usize) < self.table.len() && self.table[id as usize].equals(v) {
                        proof {
                            let vt = view_values(self.table@);
                            assert(vt[id as int] == v@);
                            if self.spec_wf() {
                                let k = vt.index_of(v@);
                                assert(vt[k] == v@);
                                if k != id as int {
                                    if k < id as int {
                                        assert(self.table@[k]@ != self.table@[id as int]@);
                                    } else {
                                        assert(self.table@[id as int]@ != self.table@[k]@);
                                    }
                                }
                            }
                        }
                        return Some(id);
                    }
                    j = j + 1;
                }
                proof {
                    if self.spec_wf() {
                        assert forall|k: int| 0 <= k < self.table@.len() implies #[trigger] self.table@[k]@ != v@ by {
                            if self.table@[k]@ == v@ {
                                assert(self.index@[fp]@.contains(k as u32));
                                assert(ids@ == self.index@[fp]@);
                                let w = choose|w: int| 0 <= w < ids@.len() && ids@[w] == k as u32;
                                assert(ids@[w] as int == k);
                                assert(!((ids@[w] as int) < self.table@.len() && self.table@[ids@[w] as int]@ == v@));
                            }
                        }
                    }
                }
            },
            None => {
                proof {
                    if self.spec_wf() {
                        assert forall|k: int| 0 <= k < self.table@.len() implies #[trigger] self.table@[k]@ != v@ by {
                            if self.table@[k]@ == v@ {
                                assert(self.index@.contains_key(spec_fingerprint(self.table@[k]@)));
                            }
                        }
                    }
                }
            },
        }
        proof {
            if self.spec_wf() {
                let vt = view_values(self.table@);
                assert forall|k: int| 0 <= k < vt.len() implies vt[k] != v@ by {
                    assert(vt[k] == self.table@[k]@);
                    assert(self.table@[k]@ != v@);
                }
                assert(!vt.contains(v@));
            }
        }
        if self.table.len() >= 0xFFFF_FFFF {
            return None;
        }
        let ghost old_table = self.table@;
        let ghost old_index = self.index@;
        let id = self.table.len() as ValueId;
        self.table.push(v.clone_value());
        let mut ids = match self.index.remove(&fp) {
            Some(ids) => ids,
            None => Vec::new(),
        };
        let ghost old_ids = ids@;
        ids.push(id);
        self.index.insert(fp, ids);
        proof {
            assert(self.index@.contains_key(fp) && self.index@[fp]@ == old_ids.push(id));
            assert(forall|f: u64| f != fp ==> #[trigger] self.index@.contains_key(f) == old_index.contains_key(f));
            assert(forall|f: u64| f != fp && old_index.contains_key(f) ==> #[trigger] self.index@[f] == old_index[f]);
            if old(self).spec_wf() {
                assert(old_index.contains_key(fp) ==> old_ids == old_index[fp]@);
                assert forall|k: int| 0 <= k < self.table@.len() implies {
                    let f = spec_fingerprint(#[trigger] self.table@[k]@);
                    self.index@.contains_key(f) && self.index@[f]@.contains(k as u32)
                } by {
                    let f = spec_fingerprint(self.table@[k]@);
                    if k < old_table.len() {
                        assert(self.table@[k] == old_table[k]);
                        assert(old_index[f]@.contains(k as u32));
                        if f == fp {
                            let w = choose|w: int| 0 <= w < old_index[f]@.len() && old_index[f]@[w] == k as u32;
                            assert(self.index@[f]@[w] == k as u32);
                        }
                    } else {
                        assert(self.table@[k]@ == v@);
                        assert(self.index@[fp]@[old_ids.len() as int] == id);
                    }
                }
                assert forall|a: int, b: int| 0 <= a < b < self.table@.len() implies #[trigger] self.table@[a]@
                    != #[trigger] self.table@[b]@ by {
                    if b == old_table.len() {
                        assert(self.table@[a] == old_table[a]);
                    } else {
                        assert(self.table@[a] == old_table[a]);
                        assert(self.table@[b] == old_table[b]);
                    }
                }
            }
        }
        proof {
            assert(view_values(self.table@) =~= view_values(old_table).push(v@));
        }
        Some(id)
    }
}

} // verus!
