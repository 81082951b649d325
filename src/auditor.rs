use vstd::prelude::*;

use crate::context::ContextItem;
use crate::json::{get_member, json_of, member, parse_json, reply_json, JsonValue};
use crate::text::{strip_code_fences, trim, trim_spec, unfenced};
use vstd::set_lib::{lemma_int_range, lemma_len_subset, set_int_range};

verus! {

/// The gathered candidate items, by category, that the auditor may shrink.
pub struct GatheredContext {
    pub components: Vec<ContextItem>,
    pub helpers: Vec<ContextItem>,
    pub types: Vec<ContextItem>,
    pub schemas: Vec<ContextItem>,
}

/// Above this many items in all, the auditor engages.
pub const AUDIT_TOTAL_THRESHOLD: usize = 12;

/// Above this many items, a category is audited.
pub const AUDIT_CATEGORY_THRESHOLD: usize = 8;

/// The most characters of an item's content shown in an audit preview.
pub const PREVIEW_CHARS: usize = 320;

/// The indices listed by a decoded audit reply: `None` unless it is an object whose
/// `keep_indices`, when present, is a list of non-negative integers.
pub open spec fn keep_indices_of(j: Option<JsonValue>) -> Option<Seq<u64>> {
    match j {
        Some(JsonValue::Object(ms)) => match member(ms@, "keep_indices"@) {
            None => Some(seq![]),
            Some(JsonValue::Array(xs)) => numbers_of(xs@),
            Some(_) => None,
        },
        _ => None,
    }
}

/// The values of `xs` when each is a non-negative 64-bit integer.
pub open spec fn numbers_of(xs: Seq<JsonValue>) -> Option<Seq<u64>>
    decreases xs.len(),
{
    if xs.len() == 0 {
        Some(seq![])
    } else {
        match (numbers_of(xs.drop_last()), xs.last()) {
            (Some(ns), JsonValue::Number(Some(n))) => Some(ns.push(n)),
            _ => None,
        }
    }
}

/// The decision an audit reply carries: the fenced-stripped text is decoded first, the
/// trimmed raw text second.
pub open spec fn audit_decision(reply: Seq<char>) -> Option<Seq<u64>> {
    match keep_indices_of(json_of(unfenced(reply))) {
        Some(k) => Some(k),
        None => keep_indices_of(json_of(trim_spec(reply))),
    }
}

/// The positions that `idx` keeps among `n` items: each index in range, in the order of
/// `idx`, once; an index out of range or already kept is skipped.
pub open spec fn kept_positions(n: nat, idx: Seq<u64>) -> Seq<int>
    decreases idx.len(),
{
    if idx.len() == 0 {
        seq![]
    } else {
        let r = kept_positions(n, idx.drop_last());
        let k = idx.last() as int;
        if k < n && !r.contains(k) {
            r.push(k)
        } else {
            r
        }
    }
}

/// The items of `items` at the positions that `idx` keeps.
pub open spec fn select(items: Seq<ContextItem>, idx: Seq<u64>) -> Seq<ContextItem> {
    kept_positions(items.len(), idx).map_values(|k: int| items[k])
}

/// `items` after a decision: the selected items when the decision selects any, else
/// `items` unchanged.
pub open spec fn apply_keep(items: Seq<ContextItem>, keep: Option<Seq<u64>>) -> Seq<ContextItem> {
    match keep {
        Some(idx) => if select(items, idx).len() > 0 {
            select(items, idx)
        } else {
            items
        },
        None => items,
    }
}

/// One category after its audit with `reply`: small categories are left alone.
pub open spec fn audited(items: Seq<ContextItem>, reply: Seq<char>) -> Seq<ContextItem> {
    if items.len() <= AUDIT_CATEGORY_THRESHOLD {
        items
    } else {
        apply_keep(items, audit_decision(reply))
    }
}

/// The view of an optional list of indices.
pub open spec fn opt_view(v: Option<Vec<u64>>) -> Option<Seq<u64>> {
    match v {
        Some(x) => Some(x@),
        None => None,
    }
}

/// `content` cut to `max_chars` characters, with an ellipsis when something was cut.
pub open spec fn preview_spec(content: Seq<char>, max_chars: nat) -> Seq<char> {
    if content.len() > max_chars {
        content.take(max_chars as int) + seq!['\u{2026}']
    } else {
        content
    }
}

/// The first `max_chars` characters of `content`, with an ellipsis when something was cut.
pub fn truncate_preview(content: &str, max_chars: usize) -> (r: String)
    ensures
        r@ == preview_spec(content@, max_chars as nat),
{
    let n = content.unicode_len();
    if n > max_chars {
        let head = content.substring_char(0, max_chars);
        let mut s = head.to_string();
        proof {
            reveal_strlit("\u{2026}");
        }
        s.append("\u{2026}");
        s
    } else {
        content.to_string()
    }
}

fn numbers_from(xs: &Vec<JsonValue>) -> (r: Option<Vec<u64>>)
    ensures
        opt_view(r) == numbers_of(xs@),
{
    let mut out: Vec<u64> = Vec::new();
    let n = xs.len();
    let mut i: usize = 0;
    while i < n
        invariant
            n == xs.len(),
            i <= n,
            numbers_of(xs@.subrange(0, i as int)) == Some(out@),
        decreases n - i,
    {
        let ghost prefix = xs@.subrange(0, i + 1);
        assert(prefix.drop_last() =~= xs@.subrange(0, i as int));
        match &xs[i] {
            JsonValue::Number(Some(k)) => {
                out.push(*k);
            },
            _ => {
                proof {
                    lemma_numbers_prefix(xs@, i + 1);
                }
                return None;
            },
        }
        i = i + 1;
    }
    assert(xs@.subrange(0, n as int) =~= xs@);
    Some(out)
}

proof fn lemma_numbers_prefix(xs: Seq<JsonValue>, k: int)
    requires
        0 < k <= xs.len(),
        !(xs[k - 1] matches JsonValue::Number(Some(_))),
    ensures
        numbers_of(xs) is None,
    decreases xs.len(),
{
    if k < xs.len() {
        lemma_numbers_prefix(xs.drop_last(), k);
    }
}

/// The indices a decoded audit reply keeps.
pub fn keep_indices_from(j: &Option<JsonValue>) -> (r: Option<Vec<u64>>)
    ensures
        opt_view(r) == keep_indices_of(*j),
{
    proof {
        reveal_strlit("keep_indices");
    }
    match j {
        Some(v) => match v {
            JsonValue::Object(_) => match get_member(v, "keep_indices") {
                None => Some(Vec::new()),
                Some(JsonValue::Array(xs)) => numbers_from(xs),
                Some(_) => None,
            },
            _ => None,
        },
        None => None,
    }
}

/// The decision carried by an audit reply.
pub fn audit_decision_of(reply: &str) -> (r: Option<Vec<u64>>)
    ensures
        opt_view(r) == audit_decision(reply@),
{
    let clean = strip_code_fences(reply);
    let first = keep_indices_from(&parse_json(clean.as_str()));
    match first {
        Some(k) => Some(k),
        None => keep_indices_from(&parse_json(trim(reply))),
    }
}

fn holds_index(v: &Vec<u64>, k: u64) -> (r: bool)
    ensures
        r == v@.contains(k),
{
    let n = v.len();
    let mut i: usize = 0;
    while i < n
        invariant
            n == v.len(),
            i <= n,
            forall|j: int| 0 <= j < i ==> v@[j] != k,
        decreases n - i,
    {
        if v[i] == k {
            return true;
        }
        i = i + 1;
    }
    false
}

/// Keeps the items at the indices of `keep`, each at most once, when it selects any;
/// otherwise, and when the reply could not be decoded (`None`), leaves `items` unchanged.
pub fn apply_keep_indices(items: &mut Vec<ContextItem>, keep: Option<Vec<u64>>)
    ensures
        final(items)@ == apply_keep(old(items)@, opt_view(keep)),
{
    match keep {
        None => {},
        Some(idx) => {
            let mut picked: Vec<ContextItem> = Vec::new();
            let mut taken: Vec<u64> = Vec::new();
            let n = idx.len();
            let m = items.len();
            let mut i: usize = 0;
            while i < n
                invariant
                    n == idx.len(),
                    m == items.len(),
                    i <= n,
                    taken@.map_values(|k: u64| k as int) == kept_positions(m as nat, idx@.subrange(0, i as int)),
                    picked@ == select(items@, idx@.subrange(0, i as int)),
                decreases n - i,
            {
                let ghost ks = kept_positions(m as nat, idx@.subrange(0, i as int));
                assert(idx@.subrange(0, i + 1).drop_last() =~= idx@.subrange(0, i as int));
                assert(idx@.subrange(0, i + 1).last() == idx@[i as int]);
                let k = idx[i];
                let seen = holds_index(&taken, k);
                assert(seen == ks.contains(k as int)) by {
                    if seen {
                        let j = choose|j: int| 0 <= j < taken@.len() && taken@[j] == k;
                        assert(taken@.map_values(|k: u64| k as int)[j] == k as int);
                    }
                    if ks.contains(k as int) {
                        let j = choose|j: int| 0 <= j < ks.len() && ks[j] == k as int;
                        assert(taken@[j] as int == ks[j]);
                    }
                }
                if k < m as u64 && !seen {
                    let ghost before_t = taken@;
                    let ghost before_p = picked@;
                    taken.push(k);
                    picked.push(items[k as usize].copy());
                    assert(taken@.map_values(|k: u64| k as int) =~= before_t.map_values(|k: u64| k as int).push(k as int));
                    assert(picked@ =~= select(items@, idx@.subrange(0, i + 1)));
                }
                i = i + 1;
            }
            assert(idx@.subrange(0, n as int) =~= idx@);
            if picked.len() > 0 {
                *items = picked;
            }
        },
    }
}

proof fn lemma_kept_positions(n: nat, idx: Seq<u64>)
    ensures
        kept_positions(n, idx).no_duplicates(),
        forall|i: int| 0 <= i < kept_positions(n, idx).len() ==> 0 <= #[trigger] kept_positions(n, idx)[i] < n,
        kept_positions(n, idx).len() <= n,
    decreases idx.len(),
{
    if idx.len() > 0 {
        lemma_kept_positions(n, idx.drop_last());
    }
    let ps = kept_positions(n, idx);
    ps.unique_seq_to_set();
    lemma_int_range(0, n as int);
    assert(ps.to_set().subset_of(set_int_range(0, n as int)));
    lemma_len_subset(ps.to_set(), set_int_range(0, n as int));
}

/// An audit only removes: the category it leaves is either unchanged or made of its old
/// items at distinct positions, each kept at most once, in the order the reply lists them.
pub proof fn lemma_audit_only_removes(items: Seq<ContextItem>, reply: Seq<char>)
    ensures
        audited(items, reply) == items || ({
            let ps = kept_positions(items.len(), audit_decision(reply)->Some_0);
            &&& audit_decision(reply) is Some
            &&& ps.no_duplicates()
            &&& forall|i: int| 0 <= i < ps.len() ==> 0 <= #[trigger] ps[i] < items.len()
            &&& audited(items, reply) == ps.map_values(|k: int| items[k])
        }),
        audited(items, reply).len() <= items.len(),
{
    if let Some(idx) = audit_decision(reply) {
        lemma_kept_positions(items.len(), idx);
    }
}

/// LLM-backed relevance filter: decides, from the model's replies, which items of each
/// category are kept.
pub struct GeminiContextAuditor;

impl GeminiContextAuditor {
    pub fn new() -> (r: GeminiContextAuditor) {
        GeminiContextAuditor
    }

    /// Whether the gathered context holds more than `AUDIT_TOTAL_THRESHOLD` items in all.
    pub fn needs_audit(&self, g: &GatheredContext) -> (r: bool)
        ensures
            r == (g.components@.len() + g.helpers@.len() + g.types@.len() + g.schemas@.len()
                > AUDIT_TOTAL_THRESHOLD),
    {
        let a = g.components.len();
        let b = g.helpers.len();
        let c = g.types.len();
        let d = g.schemas.len();
        if a > AUDIT_TOTAL_THRESHOLD {
            return true;
        }
        if b > AUDIT_TOTAL_THRESHOLD - a {
            return true;
        }
        if c > AUDIT_TOTAL_THRESHOLD - a - b {
            return true;
        }
        d > AUDIT_TOTAL_THRESHOLD - a - b - c
    }

    /// Whether a category holds more than `AUDIT_CATEGORY_THRESHOLD` items.
    pub fn category_needs_audit(&self, items: &Vec<ContextItem>) -> (r: bool)
        ensures
            r == (items@.len() > AUDIT_CATEGORY_THRESHOLD),
    {
        items.len() > AUDIT_CATEGORY_THRESHOLD
    }

    /// Applies the model's `reply` to one category; a category of at most
    /// `AUDIT_CATEGORY_THRESHOLD` items is left alone.
    pub fn audit_category(&self, items: &mut Vec<ContextItem>, reply: &str)
        ensures
            final(items)@ == audited(old(items)@, reply@),
            final(items)@.len() <= old(items)@.len(),
    {
        proof {
            lemma_audit_only_removes(items@, reply@);
        }
        if items.len() <= AUDIT_CATEGORY_THRESHOLD {
            return;
        }
        let keep = audit_decision_of(reply);
        apply_keep_indices(items, keep);
    }
}

/// Fail-open: a reply that is not valid JSON, or that keeps no index, leaves the
/// category's items and their order unchanged.
pub proof fn lemma_audit_fail_open(items: Seq<ContextItem>, reply: Seq<char>)
    requires
        reply_json(reply) is None || audit_decision(reply) == Some(Seq::<u64>::empty()),
    ensures
        audited(items, reply) == items,
{
}

} // verus!
