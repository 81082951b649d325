use vstd::prelude::*;

use crate::registry::{builtin_dependencies, registered_dependencies, views, PromptRegistry};
use crate::text::same_text;

verus! {

broadcast use {vstd::seq::Seq::lemma_push_map_commute, vstd::seq::Seq::lemma_push_to_set_commute};

/// The declared dependencies of worker `id`, or `None` when the registry does not know it.
pub open spec fn deps_of(reg: &PromptRegistry, id: Seq<char>) -> Option<Seq<Seq<char>>> {
    match reg.spec_get(id) {
        Some(p) => Some(views(p.dependencies@)),
        None => None,
    }
}

/// Whether worker `id` may run once the workers in `done` have run:
/// it is unknown, or each of its dependencies is in `done`.
pub open spec fn is_ready(reg: &PromptRegistry, id: Seq<char>, done: Set<Seq<char>>) -> bool {
    match deps_of(reg, id) {
        Some(ds) => all_in(ds, done),
        None => true,
    }
}

/// Whether every element of `ds` is in `done`.
pub open spec fn all_in(ds: Seq<Seq<char>>, done: Set<Seq<char>>) -> bool {
    forall|j: int| 0 <= j < ds.len() ==> done.contains(#[trigger] ds[j])
}

/// One pass over `rem`, left to right: each ready id is taken (and counts as done for
/// the ids after it), the others are kept. Returns (taken, kept), both in order.
pub open spec fn sweep(reg: &PromptRegistry, rem: Seq<Seq<char>>, done: Set<Seq<char>>) -> (
    Seq<Seq<char>>,
    Seq<Seq<char>>,
)
    decreases rem.len(),
{
    if rem.len() == 0 {
        (seq![], seq![])
    } else if is_ready(reg, rem[0], done) {
        let (t, k) = sweep(reg, rem.drop_first(), done.insert(rem[0]));
        (seq![rem[0]] + t, k)
    } else {
        let (t, k) = sweep(reg, rem.drop_first(), done);
        (t, seq![rem[0]] + k)
    }
}

/// The execution order of `rem` once `done` has run: passes repeat while each takes
/// an id; when one takes none, what is left follows in its current order.
pub open spec fn schedule(reg: &PromptRegistry, rem: Seq<Seq<char>>, done: Set<Seq<char>>) -> Seq<
    Seq<char>,
>
    decreases rem.len(),
    via schedule_decreases
{
    let (t, k) = sweep(reg, rem, done);
    if t.len() == 0 {
        rem
    } else {
        t + schedule(reg, k, done.union(t.to_set()))
    }
}

#[via_fn]
proof fn schedule_decreases(reg: &PromptRegistry, rem: Seq<Seq<char>>, done: Set<Seq<char>>) {
    lemma_sweep_len(reg, rem, done);
}

proof fn lemma_sweep_len(reg: &PromptRegistry, rem: Seq<Seq<char>>, done: Set<Seq<char>>)
    ensures
        sweep(reg, rem, done).0.len() + sweep(reg, rem, done).1.len() == rem.len(),
    decreases rem.len(),
{
    if rem.len() > 0 {
        lemma_sweep_len(reg, rem.drop_first(), done.insert(rem[0]));
        lemma_sweep_len(reg, rem.drop_first(), done);
    }
}

/// The execution order of `ids`: dependency-respecting where it can be, and
/// cycle-tolerant.
pub open spec fn execution_order(reg: &PromptRegistry, ids: Seq<Seq<char>>) -> Seq<Seq<char>> {
    schedule(reg, ids, Set::empty())
}

/// Whether `v` holds a string with the characters of `s`.
pub fn contains_text(v: &Vec<String>, s: &str) -> (r: bool)
    ensures
        r == views(v@).contains(s@),
{
    let n = v.len();
    let mut i: usize = 0;
    while i < n
        invariant
            n == v.len(),
            i <= n,
            forall|j: int| 0 <= j < i ==> v@[j]@ != s@,
        decreases n - i,
    {
        if same_text(v[i].as_str(), s) {
            assert(views(v@)[i as int] == s@);
            return true;
        }
        i = i + 1;
    }
    assert forall|j: int| 0 <= j < views(v@).len() implies views(v@)[j] != s@ by {
        assert(views(v@)[j] == v@[j]@);
    }
    false
}

/// Whether worker `id` may run once the workers in `processed` have run.
fn ready_now(reg: &PromptRegistry, id: &str, processed: &Vec<String>) -> (r: bool)
    ensures
        r == is_ready(reg, id@, views(processed@).to_set()),
{
    match reg.get_prompt(id) {
        None => true,
        Some(p) => {
            let ghost ds = views(p.dependencies@);
            let n = p.dependencies.len();
            let mut j: usize = 0;
            while j < n
                invariant
                    n == p.dependencies.len(),
                    ds == views(p.dependencies@),
                    reg.spec_get(id@) == Some(*p),
                    j <= n,
                    forall|k: int| 0 <= k < j ==> views(processed@).to_set().contains(#[trigger] ds[k]),
                decreases n - j,
            {
                if !contains_text(processed, p.dependencies[j].as_str()) {
                    assert(ds[j as int] == p.dependencies@[j as int]@);
                    assert(!views(processed@).to_set().contains(ds[j as int]));
                    assert(deps_of(reg, id@) == Some(ds));
                    assert(ds.len() == n);
                    assert(!(forall|k: int| 0 <= k < ds.len() ==> views(processed@).to_set().contains(#[trigger] ds[k])));
                    assert(!all_in(ds, views(processed@).to_set()));
                    return false;
                }
                assert(ds[j as int] == p.dependencies@[j as int]@);
                j = j + 1;
            }
            assert(deps_of(reg, id@) == Some(ds));
            assert(all_in(ds, views(processed@).to_set()));
            true
        },
    }
}

/// Orders `worker_ids` so that, where it can, every worker comes after its declared
/// dependencies; ids the registry does not know are taken as ready, and when a pass
/// makes no progress the rest are appended in their current order.
pub fn build_execution_plan(reg: &PromptRegistry, worker_ids: &[String]) -> (r: Vec<String>)
    ensures
        views(r@) == execution_order(reg, views(worker_ids@)),
{
    let mut remaining: Vec<String> = Vec::new();
    let mut k: usize = 0;
    while k < worker_ids.len()
        invariant
            k <= worker_ids@.len(),
            views(remaining@) == views(worker_ids@.subrange(0, k as int)),
        decreases worker_ids@.len() - k,
    {
        let ghost before = remaining@;
        remaining.push(worker_ids[k].clone());
        assert(worker_ids@.subrange(0, k + 1) =~= worker_ids@.subrange(0, k as int).push(worker_ids@[k as int]));
        assert(views(remaining@) =~= views(worker_ids@.subrange(0, k + 1)));
        k = k + 1;
    }
    assert(worker_ids@.subrange(0, worker_ids@.len() as int) =~= worker_ids@);
    assert(views(Seq::<String>::empty()).to_set() =~= Set::<Seq<char>>::empty());

    let mut order: Vec<String> = Vec::new();
    let mut processed: Vec<String> = Vec::new();
    while remaining.len() > 0
        invariant
            views(order@) + schedule(reg, views(remaining@), views(processed@).to_set())
                == execution_order(reg, views(worker_ids@)),
        decreases remaining.len(),
    {
        let ghost rem0 = views(remaining@);
        let ghost done0 = views(processed@).to_set();
        let ghost order0 = views(order@);
        let order_len0 = order.len();
        let mut kept: Vec<String> = Vec::new();
        let n = remaining.len();
        let mut i: usize = 0;
        assert(rem0.subrange(0, n as int) =~= rem0);
        assert(views(order@).subrange(order0.len() as int, views(order@).len() as int) =~= Seq::<Seq<char>>::empty());
        assert(Seq::<Seq<char>>::empty().to_set() =~= Set::<Seq<char>>::empty());
        assert(done0.union(Set::<Seq<char>>::empty()) =~= done0);
        assert(views(kept@) =~= Seq::<Seq<char>>::empty());
        assert(Seq::<Seq<char>>::empty() + sweep(reg, rem0, done0).0 =~= sweep(reg, rem0, done0).0);
        assert(Seq::<Seq<char>>::empty() + sweep(reg, rem0, done0).1 =~= sweep(reg, rem0, done0).1);
        while i < n
            invariant
                n == remaining.len(),
                rem0 == views(remaining@),
                i <= n,
                order0.len() <= views(order@).len(),
                views(order@).subrange(0, order0.len() as int) == order0,
                views(processed@).to_set() == done0.union(
                    views(order@).subrange(order0.len() as int, views(order@).len() as int).to_set(),
                ),
                sweep(reg, rem0, done0) == ({
                    let s = sweep(reg, rem0.subrange(i as int, n as int), views(processed@).to_set());
                    (views(order@).subrange(order0.len() as int, views(order@).len() as int) + s.0,
                     views(kept@) + s.1)
                }),
            decreases n - i,
        {
            let id = &remaining[i];
            let ghost tail = rem0.subrange(i as int, n as int);
            assert(tail[0] == id@);
            assert(tail.drop_first() =~= rem0.subrange(i + 1, n as int));
            let ghost taken0 = views(order@).subrange(order0.len() as int, views(order@).len() as int);
            if ready_now(reg, id.as_str(), &processed) {
                order.push(id.clone());
                processed.push(id.clone());
                let ghost taken1 = views(order@).subrange(order0.len() as int, views(order@).len() as int);
                assert(taken1 =~= taken0.push(id@));
                assert(taken1.to_set() =~= taken0.to_set().insert(id@));
                assert(views(order@).subrange(0, order0.len() as int) =~= order0);
                assert(views(processed@).to_set() =~= done0.union(taken1.to_set()));
                assert(seq![id@] + sweep(reg, rem0.subrange(i + 1, n as int), views(processed@).to_set()).0
                    == sweep(reg, tail, done0.union(taken0.to_set())).0);
                assert(taken0 + (seq![id@] + sweep(reg, rem0.subrange(i + 1, n as int), views(processed@).to_set()).0)
                    =~= taken1 + sweep(reg, rem0.subrange(i + 1, n as int), views(processed@).to_set()).0);
            } else {
                kept.push(id.clone());
                assert(views(kept@) =~= views(kept@).drop_last().push(id@));
                assert(views(kept@).drop_last() + (seq![id@] + sweep(reg, rem0.subrange(i + 1, n as int), views(processed@).to_set()).1)
                    =~= views(kept@) + sweep(reg, rem0.subrange(i + 1, n as int), views(processed@).to_set()).1);
            }
            i = i + 1;
        }
        let ghost taken = views(order@).subrange(order0.len() as int, views(order@).len() as int);
        assert(rem0.subrange(n as int, n as int) =~= Seq::<Seq<char>>::empty());
        assert(taken + Seq::<Seq<char>>::empty() =~= taken);
        assert(views(kept@) + Seq::<Seq<char>>::empty() =~= views(kept@));
        assert(sweep(reg, rem0, done0) == (taken, views(kept@)));
        assert(views(order@) =~= order0 + taken);
        if order.len() == order_len0 {
            proof {
                lemma_sweep_len(reg, rem0, done0);
            }
            let m = kept.len();
            let mut j: usize = 0;
            while j < m
                invariant
                    m == kept.len(),
                    j <= m,
                    views(order@) == order0 + views(kept@).subrange(0, j as int),
                decreases m - j,
            {
                order.push(kept[j].clone());
                assert(views(order@) =~= order0 + views(kept@).subrange(0, j + 1));
                j = j + 1;
            }
            assert(views(kept@).subrange(0, m as int) =~= views(kept@));
            assert(views(kept@) =~= rem0) by {
                lemma_sweep_nothing_taken(reg, rem0, done0);
            }
            remaining = Vec::new();
            assert(views(remaining@) =~= Seq::<Seq<char>>::empty());
            assert(views(order@) + schedule(reg, views(remaining@), views(processed@).to_set()) =~= views(order@));
        } else {
            proof {
                lemma_sweep_len(reg, rem0, done0);
            }
            remaining = kept;
            assert(views(order@) + schedule(reg, views(remaining@), views(processed@).to_set())
                =~= order0 + schedule(reg, rem0, done0));
        }
    }
    assert(views(remaining@) =~= Seq::<Seq<char>>::empty());
    assert(views(order@) + Seq::<Seq<char>>::empty() =~= views(order@));
    order
}

proof fn lemma_sweep_nothing_taken(reg: &PromptRegistry, rem: Seq<Seq<char>>, done: Set<Seq<char>>)
    requires
        sweep(reg, rem, done).0.len() == 0,
    ensures
        sweep(reg, rem, done).1 == rem,
        forall|i: int| 0 <= i < rem.len() ==> !is_ready(reg, #[trigger] rem[i], done),
    decreases rem.len(),
{
    if rem.len() > 0 {
        lemma_sweep_nothing_taken(reg, rem.drop_first(), done);
        assert(seq![rem[0]] + rem.drop_first() =~= rem);
        assert forall|i: int| 0 <= i < rem.len() implies !is_ready(reg, #[trigger] rem[i], done) by {
            if i > 0 {
                assert(rem[i] == rem.drop_first()[i - 1]);
            }
        }
    }
}


/// How many times `x` occurs in `s`.
pub open spec fn occurrences(s: Seq<Seq<char>>, x: Seq<char>) -> nat
    decreases s.len(),
{
    if s.len() == 0 {
        0
    } else {
        (if s[0] == x { 1nat } else { 0nat }) + occurrences(s.drop_first(), x)
    }
}

/// Whether worker `x` declares `d` among its dependencies.
pub open spec fn depends_on(reg: &PromptRegistry, x: Seq<char>, d: Seq<char>) -> bool {
    match deps_of(reg, x) {
        Some(ds) => ds.contains(d),
        None => false,
    }
}

/// Whether `d` stands in `out` before position `b`.
pub open spec fn placed_before(out: Seq<Seq<char>>, b: int, d: Seq<char>) -> bool {
    exists|a: int| 0 <= a < b && out[a] == d
}

proof fn lemma_occurrences_concat(a: Seq<Seq<char>>, b: Seq<Seq<char>>, x: Seq<char>)
    ensures
        occurrences(a + b, x) == occurrences(a, x) + occurrences(b, x),
    decreases a.len(),
{
    if a.len() > 0 {
        assert((a + b).drop_first() =~= a.drop_first() + b);
        lemma_occurrences_concat(a.drop_first(), b, x);
    } else {
        assert(a + b =~= b);
    }
}

proof fn lemma_sweep_occurrences(reg: &PromptRegistry, rem: Seq<Seq<char>>, done: Set<Seq<char>>, x: Seq<char>)
    ensures
        occurrences(sweep(reg, rem, done).0, x) + occurrences(sweep(reg, rem, done).1, x) == occurrences(rem, x),
    decreases rem.len(),
{
    if rem.len() > 0 {
        let d2 = if is_ready(reg, rem[0], done) { done.insert(rem[0]) } else { done };
        lemma_sweep_occurrences(reg, rem.drop_first(), d2, x);
        let (t, k) = sweep(reg, rem.drop_first(), d2);
        lemma_occurrences_concat(seq![rem[0]], t, x);
        lemma_occurrences_concat(seq![rem[0]], k, x);
        assert(seq![rem[0]].drop_first() =~= Seq::<Seq<char>>::empty());
        assert(occurrences(seq![rem[0]].drop_first(), x) == 0);
        assert(occurrences(seq![rem[0]], x) == (if rem[0] == x { 1nat } else { 0nat }));
    }
}

proof fn lemma_schedule_occurrences(reg: &PromptRegistry, rem: Seq<Seq<char>>, done: Set<Seq<char>>, x: Seq<char>)
    ensures
        occurrences(schedule(reg, rem, done), x) == occurrences(rem, x),
    decreases rem.len(),
{
    let (t, k) = sweep(reg, rem, done);
    lemma_sweep_len(reg, rem, done);
    if t.len() > 0 {
        lemma_sweep_occurrences(reg, rem, done, x);
        lemma_schedule_occurrences(reg, k, done.union(t.to_set()), x);
        lemma_occurrences_concat(t, schedule(reg, k, done.union(t.to_set())), x);
    }
}

proof fn lemma_occurrences_len(s: Seq<Seq<char>>, t: Seq<Seq<char>>)
    requires
        forall|x: Seq<char>| occurrences(s, x) == occurrences(t, x),
    ensures
        s.len() == t.len(),
    decreases s.len() + t.len(),
{
    if s.len() > 0 {
        let x = s[0];
        assert(occurrences(t, x) > 0);
        let i = lemma_occurrence_index(t, x);
        let t2 = t.remove(i);
        lemma_occurrences_remove(t, i);
        assert forall|y: Seq<char>| occurrences(s.drop_first(), y) == occurrences(t2, y) by {
        }
        lemma_occurrences_len(s.drop_first(), t2);
    } else if t.len() > 0 {
        assert(occurrences(t, t[0]) > 0);
    }
}

proof fn lemma_occurrence_index(t: Seq<Seq<char>>, x: Seq<char>) -> (i: int)
    requires
        occurrences(t, x) > 0,
    ensures
        0 <= i < t.len(),
        t[i] == x,
    decreases t.len(),
{
    if t[0] == x {
        0
    } else {
        let i = lemma_occurrence_index(t.drop_first(), x);
        i + 1
    }
}

proof fn lemma_occurrences_remove(t: Seq<Seq<char>>, i: int)
    requires
        0 <= i < t.len(),
    ensures
        forall|y: Seq<char>|
            #[trigger] occurrences(t.remove(i), y) + (if t[i] == y { 1nat } else { 0nat }) == occurrences(t, y),
{
    assert(t =~= t.subrange(0, i) + seq![t[i]] + t.subrange(i + 1, t.len() as int));
    assert(t.remove(i) =~= t.subrange(0, i) + t.subrange(i + 1, t.len() as int));
    assert forall|y: Seq<char>|
        #[trigger] occurrences(t.remove(i), y) + (if t[i] == y { 1nat } else { 0nat }) == occurrences(t, y) by {
        lemma_occurrences_concat(t.subrange(0, i), t.subrange(i + 1, t.len() as int), y);
        lemma_occurrences_concat(t.subrange(0, i) + seq![t[i]], t.subrange(i + 1, t.len() as int), y);
        lemma_occurrences_concat(t.subrange(0, i), seq![t[i]], y);
        assert(seq![t[i]].drop_first() =~= Seq::<Seq<char>>::empty());
        assert(occurrences(seq![t[i]].drop_first(), y) == 0);
        assert(occurrences(seq![t[i]], y) == (if t[i] == y { 1nat } else { 0nat }));
    }
}

/// The execution order is a permutation of its input: every id occurs in it exactly as
/// often as in `ids`, whatever the dependencies, cycles included.
pub proof fn lemma_execution_order_permutes(reg: &PromptRegistry, ids: Seq<Seq<char>>)
    ensures
        forall|x: Seq<char>| #[trigger] occurrences(execution_order(reg, ids), x) == occurrences(ids, x),
        execution_order(reg, ids).len() == ids.len(),
{
    assert forall|x: Seq<char>| #[trigger] occurrences(execution_order(reg, ids), x) == occurrences(ids, x) by {
        lemma_schedule_occurrences(reg, ids, Set::empty(), x);
    }
    lemma_occurrences_len(execution_order(reg, ids), ids);
}

/// A worker the registry does not know, given once, is scheduled exactly once,
/// wherever it stands in the input.
pub proof fn lemma_unknown_worker_once(reg: &PromptRegistry, ids: Seq<Seq<char>>, x: Seq<char>)
    requires
        reg.spec_get(x) is None,
        occurrences(ids, x) == 1,
    ensures
        occurrences(execution_order(reg, ids), x) == 1,
{
    lemma_execution_order_permutes(reg, ids);
}

proof fn lemma_sweep_parts(reg: &PromptRegistry, rem: Seq<Seq<char>>, done: Set<Seq<char>>)
    ensures
        forall|x: Seq<char>| sweep(reg, rem, done).0.contains(x) ==> rem.contains(x),
        forall|x: Seq<char>| sweep(reg, rem, done).1.contains(x) ==> rem.contains(x),
        forall|x: Seq<char>| rem.contains(x) ==> sweep(reg, rem, done).0.contains(x) || sweep(reg, rem, done).1.contains(x),
{
    assert forall|x: Seq<char>| sweep(reg, rem, done).0.contains(x) implies rem.contains(x) by {
        lemma_sweep_occurrences(reg, rem, done, x);
        lemma_contains_occurrences(sweep(reg, rem, done).0, x);
        lemma_contains_occurrences(rem, x);
    }
    assert forall|x: Seq<char>| sweep(reg, rem, done).1.contains(x) implies rem.contains(x) by {
        lemma_sweep_occurrences(reg, rem, done, x);
        lemma_contains_occurrences(sweep(reg, rem, done).1, x);
        lemma_contains_occurrences(rem, x);
    }
    assert forall|x: Seq<char>| rem.contains(x) implies sweep(reg, rem, done).0.contains(x) || sweep(reg, rem, done).1.contains(x) by {
        lemma_sweep_occurrences(reg, rem, done, x);
        lemma_contains_occurrences(sweep(reg, rem, done).0, x);
        lemma_contains_occurrences(sweep(reg, rem, done).1, x);
        lemma_contains_occurrences(rem, x);
    }
}

proof fn lemma_contains_occurrences(s: Seq<Seq<char>>, x: Seq<char>)
    ensures
        s.contains(x) <==> occurrences(s, x) > 0,
    decreases s.len(),
{
    if s.len() > 0 {
        lemma_contains_occurrences(s.drop_first(), x);
        if s.contains(x) && s[0] != x {
            let i = choose|i: int| 0 <= i < s.len() && s[i] == x;
            assert(s.drop_first()[i - 1] == x);
        }
        if s.drop_first().contains(x) {
            let i = choose|i: int| 0 <= i < s.drop_first().len() && s.drop_first()[i] == x;
            assert(s[i + 1] == x);
        }
        if s[0] == x {
            assert(s[0] == x);
            assert(s.contains(x));
        }
        if occurrences(s, x) > 0 && s[0] != x {
            assert(occurrences(s.drop_first(), x) > 0);
        }
    }
}

/// Each id that a pass takes finds each of its dependencies done before the pass,
/// or taken earlier in the same pass.
proof fn lemma_sweep_respects(reg: &PromptRegistry, rem: Seq<Seq<char>>, done: Set<Seq<char>>)
    ensures
        forall|b: int, d: Seq<char>|
            0 <= b < sweep(reg, rem, done).0.len() && #[trigger] depends_on(reg, sweep(reg, rem, done).0[b], d)
                ==> done.contains(d) || placed_before(sweep(reg, rem, done).0, b, d),
    decreases rem.len(),
{
    if rem.len() > 0 {
        let t = sweep(reg, rem, done).0;
        if is_ready(reg, rem[0], done) {
            let d2 = done.insert(rem[0]);
            lemma_sweep_respects(reg, rem.drop_first(), d2);
            let t2 = sweep(reg, rem.drop_first(), d2).0;
            assert(t == seq![rem[0]] + t2);
            assert forall|b: int, d: Seq<char>|
                0 <= b < t.len() && #[trigger] depends_on(reg, t[b], d) implies done.contains(d) || placed_before(t, b, d) by {
                if b == 0 {
                    let ds = deps_of(reg, rem[0]).unwrap();
                    let j = choose|j: int| 0 <= j < ds.len() && ds[j] == d;
                    assert(done.contains(ds[j]));
                } else {
                    assert(t[b] == t2[b - 1]);
                    if d2.contains(d) && !done.contains(d) {
                        assert(t[0] == d);
                    } else if !done.contains(d) {
                        let a = choose|a: int| 0 <= a < b - 1 && t2[a] == d;
                        assert(t[a + 1] == d);
                    }
                }
            }
        } else {
            lemma_sweep_respects(reg, rem.drop_first(), done);
            assert(t == sweep(reg, rem.drop_first(), done).0);
        }
    }
}

/// When no id of `rem` is ready, some id has a dependency that is neither done nor of
/// lower rank than every id of `rem`.
proof fn lemma_sweep_progress(
    reg: &PromptRegistry,
    rem: Seq<Seq<char>>,
    done: Set<Seq<char>>,
    rank: spec_fn(Seq<char>) -> nat,
)
    requires
        rem.len() > 0,
        forall|x: Seq<char>, d: Seq<char>|
            rem.contains(x) && #[trigger] depends_on(reg, x, d) ==> (rem.contains(d) || done.contains(d)) && rank(d) < rank(x),
    ensures
        sweep(reg, rem, done).0.len() > 0,
{
    if sweep(reg, rem, done).0.len() == 0 {
        lemma_sweep_nothing_taken(reg, rem, done);
        let m = lemma_min_rank(rem, rank);
        assert(!is_ready(reg, rem[m], done));
        let ds = deps_of(reg, rem[m]).unwrap();
        let j = choose|j: int| 0 <= j < ds.len() && !done.contains(ds[j]);
        assert(depends_on(reg, rem[m], ds[j]));
        assert(rem.contains(rem[m]));
        let i = choose|i: int| 0 <= i < rem.len() && rem[i] == ds[j];
        assert(rank(rem[i]) >= rank(rem[m]));
    }
}

proof fn lemma_min_rank(s: Seq<Seq<char>>, rank: spec_fn(Seq<char>) -> nat) -> (m: int)
    requires
        s.len() > 0,
    ensures
        0 <= m < s.len(),
        forall|i: int| 0 <= i < s.len() ==> rank(s[m]) <= rank(#[trigger] s[i]),
    decreases s.len(),
{
    if s.len() == 1 {
        0
    } else {
        let m2 = lemma_min_rank(s.drop_first(), rank);
        assert forall|i: int| 0 < i < s.len() implies rank(s[m2 + 1]) <= rank(#[trigger] s[i]) by {
            assert(s[i] == s.drop_first()[i - 1]);
        }
        if rank(s[0]) <= rank(s[m2 + 1]) {
            0
        } else {
            m2 + 1
        }
    }
}

proof fn lemma_schedule_respects(
    reg: &PromptRegistry,
    rem: Seq<Seq<char>>,
    done: Set<Seq<char>>,
    rank: spec_fn(Seq<char>) -> nat,
)
    requires
        forall|x: Seq<char>, d: Seq<char>|
            rem.contains(x) && #[trigger] depends_on(reg, x, d) ==> (rem.contains(d) || done.contains(d)) && rank(d) < rank(x),
    ensures
        forall|b: int, d: Seq<char>|
            0 <= b < schedule(reg, rem, done).len() && #[trigger] depends_on(reg, schedule(reg, rem, done)[b], d)
                ==> done.contains(d) || placed_before(schedule(reg, rem, done), b, d),
    decreases rem.len(),
{
    let (t, k) = sweep(reg, rem, done);
    lemma_sweep_len(reg, rem, done);
    if rem.len() > 0 {
        lemma_sweep_progress(reg, rem, done, rank);
        let done2 = done.union(t.to_set());
        lemma_sweep_parts(reg, rem, done);
        assert forall|x: Seq<char>, d: Seq<char>|
            k.contains(x) && #[trigger] depends_on(reg, x, d) implies (k.contains(d) || done2.contains(d)) && rank(d) < rank(x) by {
            assert(rem.contains(x));
            if rem.contains(d) && !k.contains(d) {
                assert(t.contains(d));
            }
        }
        lemma_schedule_respects(reg, k, done2, rank);
        lemma_sweep_respects(reg, rem, done);
        let tail = schedule(reg, k, done2);
        let out = schedule(reg, rem, done);
        assert(out == t + tail);
        assert forall|b: int, d: Seq<char>|
            0 <= b < out.len() && #[trigger] depends_on(reg, out[b], d) implies done.contains(d) || placed_before(out, b, d) by {
            if b < t.len() {
                assert(out[b] == t[b]);
                if !done.contains(d) {
                    let a = choose|a: int| 0 <= a < b && t[a] == d;
                    assert(out[a] == d);
                }
            } else {
                assert(out[b] == tail[b - t.len()]);
                if !done.contains(d) {
                    if t.contains(d) {
                        let a = choose|a: int| 0 <= a < t.len() && t[a] == d;
                        assert(out[a] == d);
                    } else {
                        let a = choose|a: int| 0 <= a < b - t.len() && tail[a] == d;
                        assert(out[a + t.len()] == d);
                    }
                }
            }
        }
    }
}

/// For an acyclic dependency graph (one that a rank orders: each dependency ranks below
/// its dependent) whose dependencies all stand in `ids`, every id of the execution order
/// comes after each of its declared dependencies.
pub proof fn lemma_dependencies_come_first(reg: &PromptRegistry, ids: Seq<Seq<char>>, rank: spec_fn(Seq<char>) -> nat)
    requires
        forall|x: Seq<char>, d: Seq<char>|
            ids.contains(x) && #[trigger] depends_on(reg, x, d) ==> ids.contains(d) && rank(d) < rank(x),
    ensures
        forall|b: int, d: Seq<char>|
            0 <= b < execution_order(reg, ids).len() && #[trigger] depends_on(reg, execution_order(reg, ids)[b], d)
                ==> placed_before(execution_order(reg, ids), b, d),
{
    lemma_schedule_respects(reg, ids, Set::empty(), rank);
}


/// A rank of the built-in catalog's workers: each dependency ranks below its dependent.
pub open spec fn builtin_rank(key: Seq<char>) -> nat {
    if key == "frontend_scanner"@ || key == "backend_scanner"@ || key == "data_scanner"@ || key == "api_scanner"@
        || key == "security_auditor"@ {
        1
    } else if key == "test_scanner"@ || key == "dependency_analyzer"@ || key == "refactor_advisor"@ || key
        == "performance_analyzer"@ {
        2
    } else {
        0
    }
}

/// With the built-in catalog, whose dependency graph is acyclic, every batch that holds
/// the dependencies of its workers is ordered dependencies first.
pub proof fn lemma_builtin_catalog_orders_dependencies_first(reg: &PromptRegistry, ids: Seq<Seq<char>>)
    requires
        forall|k: Seq<char>| registered_dependencies(*reg, k) == builtin_dependencies(k),
        forall|x: Seq<char>, d: Seq<char>| ids.contains(x) && #[trigger] depends_on(reg, x, d) ==> ids.contains(d),
    ensures
        forall|b: int, d: Seq<char>|
            0 <= b < execution_order(reg, ids).len() && #[trigger] depends_on(reg, execution_order(reg, ids)[b], d)
                ==> placed_before(execution_order(reg, ids), b, d),
{
    let rank = |k: Seq<char>| builtin_rank(k);
    assert forall|x: Seq<char>, d: Seq<char>|
        ids.contains(x) && #[trigger] depends_on(reg, x, d) implies ids.contains(d) && rank(d) < rank(x) by {
        assert(registered_dependencies(*reg, x) == builtin_dependencies(x));
        reveal_strlit("stack_detector");
        assert("stack_detector"@.len() == 14);
        reveal_strlit("task_classifier");
        assert("task_classifier"@.len() == 15);
        reveal_strlit("frontend_scanner");
        assert("frontend_scanner"@.len() == 16);
        reveal_strlit("backend_scanner");
        assert("backend_scanner"@.len() == 15);
        reveal_strlit("data_scanner");
        assert("data_scanner"@.len() == 12);
        reveal_strlit("auth_scanner");
        assert("auth_scanner"@.len() == 12);
        reveal_strlit("api_scanner");
        assert("api_scanner"@.len() == 11);
        reveal_strlit("test_scanner");
        assert("test_scanner"@.len() == 12);
        reveal_strlit("error_analyzer");
        assert("error_analyzer"@.len() == 14);
        reveal_strlit("config_scanner");
        assert("config_scanner"@.len() == 14);
        reveal_strlit("dependency_analyzer");
        assert("dependency_analyzer"@.len() == 19);
        reveal_strlit("security_auditor");
        assert("security_auditor"@.len() == 16);
        reveal_strlit("performance_analyzer");
        assert("performance_analyzer"@.len() == 20);
        reveal_strlit("documentation_scanner");
        assert("documentation_scanner"@.len() == 21);
        reveal_strlit("refactor_advisor");
        assert("refactor_advisor"@.len() == 16);
        assert("stack_detector"@[0] != "error_analyzer"@[0]);
        assert("stack_detector"@[0] != "config_scanner"@[0]);
        assert("task_classifier"@[0] != "backend_scanner"@[0]);
        assert("frontend_scanner"@[0] != "security_auditor"@[0]);
        assert("frontend_scanner"@[0] != "refactor_advisor"@[0]);
        assert("data_scanner"@[0] != "auth_scanner"@[0]);
        assert("data_scanner"@[0] != "test_scanner"@[0]);
        assert("auth_scanner"@[0] != "test_scanner"@[0]);
        assert("error_analyzer"@[0] != "config_scanner"@[0]);
        assert("security_auditor"@[0] != "refactor_advisor"@[0]);
    }
    lemma_dependencies_come_first(reg, ids, rank);
}

} // verus!
