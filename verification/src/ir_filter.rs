use vstd::hash_map::StringHashMap;
use vstd::prelude::*;

use crate::interpreter::primitives::str_equal;
use crate::json::{spec_str_at, str_at, Json};

verus! {

/// The models of a sequence of strings.
pub open spec fn spec_strings(v: Seq<String>) -> Seq<Seq<char>> {
    Seq::new(v.len(), |i: int| v[i]@)
}

/// The function an object itself calls: the `fun` of a `fap` or `pap` object.
pub open spec fn spec_own_ref(ms: Seq<(String, Json)>) -> Seq<Seq<char>> {
    match spec_str_at(ms, "kind"@) {
        Ok(kind) => if kind == "fap"@ || kind == "pap"@ {
            match spec_str_at(ms, "fun"@) {
                Ok(fun) => seq![fun],
                Err(_) => Seq::empty(),
            }
        } else {
            Seq::empty()
        },
        Err(_) => Seq::empty(),
    }
}

/// The functions that the first `k` members of an object call.
pub open spec fn spec_refs_members(ms: Seq<(String, Json)>, k: int) -> Seq<Seq<char>>
    decreases ms, k,
{
    if k <= 0 || k > ms.len() {
        Seq::empty()
    } else {
        spec_refs_members(ms, k - 1) + spec_collect_refs(ms[k - 1].1)
    }
}

/// The functions that the first `k` items of an array call.
pub open spec fn spec_refs_items(items: Seq<Json>, k: int) -> Seq<Seq<char>>
    decreases items, k,
{
    if k <= 0 || k > items.len() {
        Seq::empty()
    } else {
        spec_refs_items(items, k - 1) + spec_collect_refs(items[k - 1])
    }
}

/// The functions that a JSON IR fragment calls: the `fun` of every `fap`
/// and `pap` object, an object's own before those of its members, in order.
pub open spec fn spec_collect_refs(v: Json) -> Seq<Seq<char>>
    decreases v, 0int,
{
    match v {
        Json::Object(ms) => spec_own_ref(ms@) + spec_refs_members(ms@, ms@.len() as int),
        Json::Array(items) => spec_refs_items(items@, items@.len() as int),
        _ => Seq::empty(),
    }
}

/// Appends the functions that a JSON IR fragment calls.
pub fn collect_references(v: &Json, refs: &mut Vec<String>)
    ensures
        spec_strings(final(refs)@) == spec_strings(old(refs)@) + spec_collect_refs(*v),
    decreases v,
{
    match v {
        Json::Object(ms) => {
            let ghost start = spec_strings(refs@);
            if let Ok(kind) = str_at(ms, "kind") {
                if str_equal(kind, "fap") || str_equal(kind, "pap") {
                    if let Ok(fun) = str_at(ms, "fun") {
                        refs.push(fun.to_owned());
                    }
                }
            }
            assert(spec_strings(refs@) =~= start + spec_own_ref(ms@));
            let ghost mid = spec_strings(refs@);
            let mut i: usize = 0;
            while i < ms.len()
                invariant
                    i <= ms@.len(),
                    spec_strings(refs@) == mid + spec_refs_members(ms@, i as int),
                    decreases_to!(*v => *ms),
                decreases ms@.len() - i,
            {
                proof {
                    vstd::std_specs::vec::axiom_vec_index_decreases(*ms, i as int);
                }
                let ghost before = spec_strings(refs@);
                collect_references(&ms[i].1, refs);
                proof {
                    assert(mid + spec_refs_members(ms@, i as int + 1) =~= before + spec_collect_refs(ms@[i as int].1));
                }
                i = i + 1;
            }
            assert(start + (spec_own_ref(ms@) + spec_refs_members(ms@, ms@.len() as int)) =~= mid
                + spec_refs_members(ms@, ms@.len() as int));
        },
        Json::Array(items) => {
            let ghost start = spec_strings(refs@);
            let mut i: usize = 0;
            assert(start + spec_refs_items(items@, 0) =~= start);
            while i < items.len()
                invariant
                    i <= items@.len(),
                    spec_strings(refs@) == start + spec_refs_items(items@, i as int),
                    decreases_to!(*v => *items),
                decreases items@.len() - i,
            {
                proof {
                    vstd::std_specs::vec::axiom_vec_index_decreases(*items, i as int);
                }
                let ghost before = spec_strings(refs@);
                collect_references(&items[i], refs);
                proof {
                    assert(start + spec_refs_items(items@, i as int + 1) =~= before + spec_collect_refs(items@[i as int]));
                }
                i = i + 1;
            }
        },
        _ => {
            assert(spec_strings(refs@) =~= spec_strings(refs@) + Seq::<Seq<char>>::empty());
        },
    }
}


/// The name of a declaration object, if it has a string `name`.
pub open spec fn spec_decl_name(j: Json) -> Option<Seq<char>> {
    match j {
        Json::Object(ms) => match spec_str_at(ms@, "name"@) {
            Ok(n) => Some(n),
            Err(_) => None,
        },
        _ => None,
    }
}

/// The last among the first `k` declarations that is named `n`.
pub open spec fn spec_last_named(all: Seq<Json>, n: Seq<char>, k: int) -> Option<int>
    decreases k,
{
    if k <= 0 {
        None
    } else if spec_decl_name(all[k - 1]) == Some(n) {
        Some(k - 1)
    } else {
        spec_last_named(all, n, k - 1)
    }
}

/// The call graph of a program: the declaration of `x` (the last one named
/// `x`) calls `y`, and `y` is declared.
pub open spec fn spec_calls(all: Seq<Json>, x: Seq<char>, y: Seq<char>) -> bool {
    match spec_last_named(all, x, all.len() as int) {
        Some(i) => spec_collect_refs(all[i]).contains(y) && spec_last_named(all, y, all.len() as int) is Some,
        None => false,
    }
}

/// `y` is reached from `entry` in at most `k` calls.
pub open spec fn spec_reach_within(all: Seq<Json>, entry: Seq<char>, k: nat, y: Seq<char>) -> bool
    decreases k,
{
    if k == 0 {
        y == entry
    } else {
        spec_reach_within(all, entry, (k - 1) as nat, y) || exists|x: Seq<char>|
            spec_reach_within(all, entry, (k - 1) as nat, x) && #[trigger] spec_calls(all, x, y)
    }
}

/// `y` is reached from `entry` through calls.
pub open spec fn spec_reachable(all: Seq<Json>, entry: Seq<char>, y: Seq<char>) -> bool {
    exists|k: nat| #[trigger] spec_reach_within(all, entry, k, y)
}

/// The indices, among the first `k`, of the declarations whose name is reachable.
pub open spec fn spec_kept_indices(all: Seq<Json>, entry: Seq<char>, k: int) -> Seq<usize>
    decreases k,
{
    if k <= 0 {
        Seq::empty()
    } else {
        let p = spec_kept_indices(all, entry, k - 1);
        match spec_decl_name(all[k - 1]) {
            Some(n) => if spec_reachable(all, entry, n) {
                p.push((k - 1) as usize)
            } else {
                p
            },
            None => p,
        }
    }
}

/// How many of the first `k` declarations have a name not yet reached.
pub open spec fn spec_unvisited(all: Seq<Json>, reached: Map<Seq<char>, bool>, k: int) -> nat
    decreases k,
{
    if k <= 0 {
        0
    } else {
        spec_unvisited(all, reached, k - 1) + match spec_decl_name(all[k - 1]) {
            Some(n) => if reached.contains_key(n) { 0nat } else { 1nat },
            None => 0nat,
        }
    }
}

/// Reaching one more name leaves no more declarations unvisited, and fewer
/// when it names one that was not reached.
proof fn lemma_unvisited_insert(all: Seq<Json>, reached: Map<Seq<char>, bool>, y: Seq<char>, k: int)
    requires
        0 <= k <= all.len(),
    ensures
        spec_unvisited(all, reached.insert(y, true), k) <= spec_unvisited(all, reached, k),
        !reached.contains_key(y) && spec_last_named(all, y, k) is Some ==> spec_unvisited(
            all,
            reached.insert(y, true),
            k,
        ) < spec_unvisited(all, reached, k),
    decreases k,
{
    if k > 0 {
        lemma_unvisited_insert(all, reached, y, k - 1);
    }
}

proof fn lemma_last_named_range(all: Seq<Json>, n: Seq<char>, k: int)
    requires
        k <= all.len(),
    ensures
        spec_last_named(all, n, k) matches Some(i) ==> 0 <= i < k && spec_decl_name(all[i]) == Some(n),
    decreases k,
{
    if k > 0 {
        lemma_last_named_range(all, n, k - 1);
    }
}

/// A set that holds `entry` and is closed under calls holds every reachable name.
proof fn lemma_closed_holds_reachable(
    all: Seq<Json>,
    entry: Seq<char>,
    reached: Map<Seq<char>, bool>,
    k: nat,
    y: Seq<char>,
)
    requires
        reached.contains_key(entry),
        forall|a: Seq<char>, b: Seq<char>| reached.contains_key(a) && #[trigger] spec_calls(all, a, b) ==> reached.contains_key(b),
        spec_reach_within(all, entry, k, y),
    ensures
        reached.contains_key(y),
    decreases k,
{
    if k > 0 {
        if spec_reach_within(all, entry, (k - 1) as nat, y) {
            lemma_closed_holds_reachable(all, entry, reached, (k - 1) as nat, y);
        } else {
            let x = choose|x: Seq<char>| spec_reach_within(all, entry, (k - 1) as nat, x) && #[trigger] spec_calls(all, x, y);
            lemma_closed_holds_reachable(all, entry, reached, (k - 1) as nat, x);
        }
    }
}

/// A name called from a reachable one is reachable.
proof fn lemma_reach_step(all: Seq<Json>, entry: Seq<char>, x: Seq<char>, y: Seq<char>)
    requires
        spec_reachable(all, entry, x),
        spec_calls(all, x, y),
    ensures
        spec_reachable(all, entry, y),
{
    let k = choose|k: nat| #[trigger] spec_reach_within(all, entry, k, x);
    assert(spec_reach_within(all, entry, k + 1, y));
}

/// The indices of the declarations reachable, through calls, from `entry`,
/// in order: what remains of a program once everything the entry point can
/// never call is dropped.
pub fn reachable_decls(all: &Vec<Json>, entry: &str) -> (r: Vec<usize>)
    ensures
        r@ == spec_kept_indices(all@, entry@, all@.len() as int),
{
    let ghost alls = all@;
    let mut references: StringHashMap<Vec<String>> = StringHashMap::new();
    let mut i: usize = 0;
    while i < all.len()
        invariant
            i <= all@.len(),
            alls == all@,
            forall|n: Seq<char>| #[trigger] references@.contains_key(n) <==> spec_last_named(alls, n, i as int) is Some,
            forall|n: Seq<char>| #[trigger] references@.contains_key(n) ==> spec_strings(references@[n]@) == spec_collect_refs(
                alls[spec_last_named(alls, n, i as int)->Some_0],
            ),
        decreases all@.len() - i,
    {
        if let Json::Object(ms) = &all[i] {
            if let Ok(name) = str_at(ms, "name") {
                let mut refs: Vec<String> = Vec::new();
                collect_references(&all[i], &mut refs);
                proof {
                    assert(spec_strings(refs@) =~= spec_collect_refs(alls[i as int]));
                }
                references.insert(name.to_owned(), refs);
            }
        }
        i = i + 1;
    }
    let ghost len = alls.len() as int;
    let mut reached: StringHashMap<bool> = StringHashMap::new();
    let mut queue: Vec<String> = Vec::new();
    queue.push(entry.to_owned());
    proof {
        assert(spec_reach_within(alls, entry@, 0, entry@));
        assert(spec_strings(queue@)[0] == entry@);
    }
    while queue.len() > 0
        invariant
            alls == all@,
            len == alls.len(),
            forall|n: Seq<char>| #[trigger] references@.contains_key(n) <==> spec_last_named(alls, n, len) is Some,
            forall|n: Seq<char>| #[trigger] references@.contains_key(n) ==> spec_strings(references@[n]@) == spec_collect_refs(
                alls[spec_last_named(alls, n, len)->Some_0],
            ),
            forall|x: Seq<char>| #[trigger] reached@.contains_key(x) ==> spec_reachable(alls, entry@, x),
            forall|j: int| 0 <= j < queue@.len() ==> spec_reachable(alls, entry@, #[trigger] queue@[j]@),
            forall|x: Seq<char>, y: Seq<char>|
                reached@.contains_key(x) && #[trigger] spec_calls(alls, x, y) ==> reached@.contains_key(y)
                    || spec_strings(queue@).contains(y),
            reached@.contains_key(entry@) || spec_strings(queue@).contains(entry@),
        decreases spec_unvisited(alls, reached@, len), queue@.len(),
    {
        let ghost q0 = queue@;
        let name = queue.pop().unwrap();
        proof {
            assert(q0 =~= queue@.push(name));
            assert(spec_strings(q0) =~= spec_strings(queue@).push(name@));
            assert(spec_reachable(alls, entry@, q0[q0.len() - 1]@));
            lemma_unvisited_insert(alls, reached@, name@, len);
            lemma_last_named_range(alls, name@, len);
        }
        if !reached.contains_key(name.as_str()) {
            let ghost r0 = reached@;
            let key = name.clone();
            reached.insert(key, true);
            let ghost q1 = queue@;
            match references.get(name.as_str()) {
                Some(refs) => {
                    let mut j: usize = 0;
                    while j < refs.len()
                        invariant
                            j <= refs@.len(),
                            alls == all@,
                            len == alls.len(),
                            references@.contains_key(name@),
                            spec_strings(refs@) == spec_collect_refs(alls[spec_last_named(alls, name@, len)->Some_0]),
                            forall|n: Seq<char>| #[trigger] references@.contains_key(n) <==> spec_last_named(alls, n, len) is Some,
                            spec_reachable(alls, entry@, name@),
                            reached@.contains_key(name@),
                            queue@.len() >= q1.len(),
                            spec_strings(queue@).subrange(0, q1.len() as int) == spec_strings(q1),
                            forall|k: int| 0 <= k < queue@.len() ==> spec_reachable(alls, entry@, #[trigger] queue@[k]@),
                            forall|k: int| 0 <= k < j ==> (reached@.contains_key(#[trigger] spec_strings(refs@)[k])
                                || !references@.contains_key(spec_strings(refs@)[k]) || spec_strings(queue@).contains(
                                spec_strings(refs@)[k],
                            )),
                        decreases refs@.len() - j,
                    {
                        let ghost qa = queue@;
                        if !reached.contains_key(refs[j].as_str()) && references.contains_key(refs[j].as_str()) {
                            proof {
                                assert(spec_strings(refs@)[j as int] == refs@[j as int]@);
                                assert(spec_collect_refs(alls[spec_last_named(alls, name@, len)->Some_0]).contains(
                                    refs@[j as int]@,
                                ));
                                assert(spec_calls(alls, name@, refs@[j as int]@));
                                lemma_reach_step(alls, entry@, name@, refs@[j as int]@);
                            }
                            queue.push(refs[j].clone());
                            proof {
                                assert(spec_strings(queue@) =~= spec_strings(qa).push(refs@[j as int]@));
                                assert(spec_strings(queue@)[qa.len() as int] == refs@[j as int]@);
                                assert forall|k: int| 0 <= k < j implies (reached@.contains_key(
                                    #[trigger] spec_strings(refs@)[k],
                                ) || !references@.contains_key(spec_strings(refs@)[k]) || spec_strings(queue@).contains(
                                    spec_strings(refs@)[k],
                                )) by {
                                    if spec_strings(qa).contains(spec_strings(refs@)[k]) {
                                        let w = choose|w: int| 0 <= w < qa.len() && spec_strings(qa)[w] == spec_strings(refs@)[k];
                                        assert(spec_strings(queue@)[w] == spec_strings(refs@)[k]);
                                    }
                                }
                                assert(spec_strings(queue@).subrange(0, q1.len() as int) =~= spec_strings(qa).subrange(
                                    0,
                                    q1.len() as int,
                                ));
                            }
                        }
                        j = j + 1;
                    }
                    proof {
                        assert forall|x: Seq<char>, y: Seq<char>|
                            reached@.contains_key(x) && #[trigger] spec_calls(alls, x, y) implies reached@.contains_key(y)
                            || spec_strings(queue@).contains(y) by {
                            if x == name@ {
                                let w = choose|w: int| 0 <= w < spec_strings(refs@).len() && spec_strings(refs@)[w] == y;
                                assert(spec_strings(refs@)[w] == y);
                            } else {
                                assert(r0.contains_key(x));
                                if !reached@.contains_key(y) {
                                    assert(spec_strings(q0).contains(y));
                                    let w = choose|w: int| 0 <= w < q0.len() && spec_strings(q0)[w] == y;
                                    assert(w < q1.len());
                                    assert(spec_strings(queue@)[w] == y);
                                }
                            }
                        }
                        if !reached@.contains_key(entry@) {
                            let w = choose|w: int| 0 <= w < q0.len() && spec_strings(q0)[w] == entry@;
                            assert(spec_strings(queue@)[w] == entry@);
                        }
                    }
                },
                None => {
                    proof {
                        assert forall|x: Seq<char>, y: Seq<char>|
                            reached@.contains_key(x) && #[trigger] spec_calls(alls, x, y) implies reached@.contains_key(y)
                            || spec_strings(queue@).contains(y) by {
                            if x != name@ {
                                assert(r0.contains_key(x));
                                if !reached@.contains_key(y) {
                                    let w = choose|w: int| 0 <= w < q0.len() && spec_strings(q0)[w] == y;
                                    assert(spec_strings(queue@)[w] == y);
                                }
                            }
                        }
                        if !reached@.contains_key(entry@) {
                            let w = choose|w: int| 0 <= w < q0.len() && spec_strings(q0)[w] == entry@;
                            assert(spec_strings(queue@)[w] == entry@);
                        }
                    }
                },
            }
        } else {
            proof {
                assert forall|x: Seq<char>, y: Seq<char>|
                    reached@.contains_key(x) && #[trigger] spec_calls(alls, x, y) implies reached@.contains_key(y)
                    || spec_strings(queue@).contains(y) by {
                    if !reached@.contains_key(y) {
                        let w = choose|w: int| 0 <= w < q0.len() && spec_strings(q0)[w] == y;
                        assert(spec_strings(queue@)[w] == y);
                    }
                }
                if !reached@.contains_key(entry@) {
                    let w = choose|w: int| 0 <= w < q0.len() && spec_strings(q0)[w] == entry@;
                    assert(spec_strings(queue@)[w] == entry@);
                }
            }
        }
    }
    proof {
        assert(!spec_strings(queue@).contains(entry@));
        assert forall|y: Seq<char>| spec_reachable(alls, entry@, y) implies #[trigger] reached@.contains_key(y) by {
            let k = choose|k: nat| #[trigger] spec_reach_within(alls, entry@, k, y);
            lemma_closed_holds_reachable(alls, entry@, reached@, k, y);
        }
    }
    let mut out: Vec<usize> = Vec::new();
    let mut i: usize = 0;
    while i < all.len()
        invariant
            i <= all@.len(),
            alls == all@,
            forall|y: Seq<char>| #[trigger] reached@.contains_key(y) <==> spec_reachable(alls, entry@, y),
            out@ == spec_kept_indices(alls, entry@, i as int),
        decreases all@.len() - i,
    {
        if let Json::Object(ms) = &all[i] {
            if let Ok(name) = str_at(ms, "name") {
                if reached.contains_key(name) {
                    out.push(i);
                }
            }
        }
        i = i + 1;
    }
    out
}


/// The entry point is reachable, and so is whatever a reachable function
/// calls.
pub proof fn lemma_reachable_closed(all: Seq<Json>, entry: Seq<char>, x: Seq<char>, y: Seq<char>)
    ensures
        spec_reachable(all, entry, entry),
        spec_reachable(all, entry, x) && spec_calls(all, x, y) ==> spec_reachable(all, entry, y),
{
    assert(spec_reach_within(all, entry, 0, entry));
    if spec_reachable(all, entry, x) && spec_calls(all, x, y) {
        let k = choose|k: nat| #[trigger] spec_reach_within(all, entry, k, x);
        assert(spec_reach_within(all, entry, k + 1, y));
    }
}

/// The kept declarations are exactly those, among the first `k`, whose name
/// is reachable from the entry point, in increasing order.
pub proof fn lemma_kept_indices_meaning(all: Seq<Json>, entry: Seq<char>, k: int)
    requires
        0 <= k <= all.len(),
        all.len() <= usize::MAX,
    ensures
        ({
            let r = spec_kept_indices(all, entry, k);
            &&& forall|a: int, b: int| 0 <= a < b < r.len() ==> r[a] < r[b]
            &&& forall|a: int| 0 <= a < r.len() ==> #[trigger] r[a] < k
            &&& forall|i: int|
                0 <= i < k ==> (r.contains(i as usize) <==> (spec_decl_name(#[trigger] all[i]) matches Some(n)
                    && spec_reachable(all, entry, n)))
        }),
    decreases k,
{
    if k > 0 {
        lemma_kept_indices_meaning(all, entry, k - 1);
        let p = spec_kept_indices(all, entry, k - 1);
        let r = spec_kept_indices(all, entry, k);
        assert forall|i: int|
            0 <= i < k implies (r.contains(i as usize) <==> (spec_decl_name(#[trigger] all[i]) matches Some(n)
                && spec_reachable(all, entry, n))) by {
            if i < k - 1 {
                if r.contains(i as usize) {
                    let a = choose|a: int| 0 <= a < r.len() && r[a] == i as usize;
                    if a < p.len() {
                        assert(p[a] == r[a]);
                    }
                }
                if p.contains(i as usize) {
                    let a = choose|a: int| 0 <= a < p.len() && p[a] == i as usize;
                    assert(r[a] == p[a]);
                }
            } else {
                if r.contains(i as usize) {
                    let a = choose|a: int| 0 <= a < r.len() && r[a] == i as usize;
                    if a < p.len() {
                        assert(p[a] == r[a]);
                    }
                }
                if spec_decl_name(all[i]) matches Some(n) && spec_reachable(all, entry, n) {
                    assert(r[r.len() - 1] == (k - 1) as usize);
                }
            }
        }
    }
}

} // verus!
