use vstd::prelude::*;

use crate::text::{contains_str, has_infix};

verus! {

/// A candidate code item gathered for the assistant.
pub struct ContextItem {
    pub name: String,
    pub kind: String,
    pub file_path: String,
    /// The item's text: a symbol's source, a type's or schema's definition, a constant's value.
    pub content: String,
}

impl ContextItem {
    /// A field-for-field copy.
    pub fn copy(&self) -> (r: ContextItem)
        ensures
            r == *self,
    {
        ContextItem {
            name: self.name.clone(),
            kind: self.kind.clone(),
            file_path: self.file_path.clone(),
            content: self.content.clone(),
        }
    }
}

/// The named buckets of candidate items, shrunk in place by the downstream stages.
pub struct ContextData {
    pub relevant_symbols: Vec<ContextItem>,
    pub similar_symbols: Vec<ContextItem>,
    pub types: Vec<ContextItem>,
    pub constants: Vec<ContextItem>,
    pub design_tokens: Vec<ContextItem>,
    pub schemas: Vec<ContextItem>,
}

/// The mathematical form of a `ContextData`: one sequence per bucket.
pub struct ContextView {
    pub relevant_symbols: Seq<ContextItem>,
    pub similar_symbols: Seq<ContextItem>,
    pub types: Seq<ContextItem>,
    pub constants: Seq<ContextItem>,
    pub design_tokens: Seq<ContextItem>,
    pub schemas: Seq<ContextItem>,
}

impl View for ContextData {
    type V = ContextView;

    open spec fn view(&self) -> ContextView {
        ContextView {
            relevant_symbols: self.relevant_symbols@,
            similar_symbols: self.similar_symbols@,
            types: self.types@,
            constants: self.constants@,
            design_tokens: self.design_tokens@,
            schemas: self.schemas@,
        }
    }
}

impl ContextData {
    /// An empty context.
    pub fn new() -> (r: ContextData)
        ensures
            r@.relevant_symbols.len() == 0,
            r@.similar_symbols.len() == 0,
            r@.types.len() == 0,
            r@.constants.len() == 0,
            r@.design_tokens.len() == 0,
            r@.schemas.len() == 0,
    {
        ContextData {
            relevant_symbols: Vec::new(),
            similar_symbols: Vec::new(),
            types: Vec::new(),
            constants: Vec::new(),
            design_tokens: Vec::new(),
            schemas: Vec::new(),
        }
    }
}

// ---------------------------------------------------------------- deduplication

/// The key two items of one bucket must not share: (name, file path) for symbols,
/// (name, content) for the other buckets.
pub open spec fn item_key(e: ContextItem, by_path: bool) -> (Seq<char>, Seq<char>) {
    if by_path {
        (e.name@, e.file_path@)
    } else {
        (e.name@, e.content@)
    }
}

/// Whether some item of `s` has the key of `e`.
pub open spec fn key_in(s: Seq<ContextItem>, e: ContextItem, by_path: bool) -> bool {
    exists|i: int| 0 <= i < s.len() && item_key(s[i], by_path) == item_key(e, by_path)
}

/// `s` with each item whose key appeared earlier removed (first occurrence wins).
pub open spec fn dedup_items(s: Seq<ContextItem>, by_path: bool) -> Seq<ContextItem>
    decreases s.len(),
{
    if s.len() == 0 {
        s
    } else {
        let r = dedup_items(s.drop_last(), by_path);
        if key_in(r, s.last(), by_path) {
            r
        } else {
            r.push(s.last())
        }
    }
}

/// Whether no two items of `s` share a key.
pub open spec fn keys_unique(s: Seq<ContextItem>, by_path: bool) -> bool {
    forall|i: int, j: int| 0 <= i < j < s.len() ==> item_key(s[i], by_path) != item_key(s[j], by_path)
}

/// The items of `s` that satisfy `pred`, in order.
pub open spec fn keep_where(s: Seq<ContextItem>, pred: spec_fn(ContextItem) -> bool) -> Seq<ContextItem>
    decreases s.len(),
{
    if s.len() == 0 {
        s
    } else if pred(s.last()) {
        keep_where(s.drop_last(), pred).push(s.last())
    } else {
        keep_where(s.drop_last(), pred)
    }
}

/// Whether some item of `s` is named `name`.
pub open spec fn name_in(s: Seq<ContextItem>, name: Seq<char>) -> bool {
    exists|i: int| 0 <= i < s.len() && s[i].name@ == name
}

/// `similar` without the items named like an item of `relevant`.
pub open spec fn without_names(similar: Seq<ContextItem>, relevant: Seq<ContextItem>) -> Seq<ContextItem> {
    keep_where(similar, |e: ContextItem| !name_in(relevant, e.name@))
}

/// The context once deduplicated.
pub open spec fn dedup_spec(c: ContextView) -> ContextView {
    let relevant = dedup_items(c.relevant_symbols, true);
    ContextView {
        relevant_symbols: relevant,
        similar_symbols: without_names(dedup_items(c.similar_symbols, true), relevant),
        types: dedup_items(c.types, false),
        constants: dedup_items(c.constants, false),
        design_tokens: c.design_tokens,
        schemas: dedup_items(c.schemas, false),
    }
}

fn has_key(s: &Vec<ContextItem>, e: &ContextItem, by_path: bool) -> (r: bool)
    ensures
        r == key_in(s@, *e, by_path),
{
    let n = s.len();
    let mut i: usize = 0;
    while i < n
        invariant
            n == s.len(),
            i <= n,
            forall|j: int| 0 <= j < i ==> item_key(s@[j], by_path) != item_key(*e, by_path),
        decreases n - i,
    {
        let same = if by_path {
            s[i].name == e.name && s[i].file_path == e.file_path
        } else {
            s[i].name == e.name && s[i].content == e.content
        };
        if same {
            return true;
        }
        i = i + 1;
    }
    false
}

fn dedup_vec(v: &Vec<ContextItem>, by_path: bool) -> (r: Vec<ContextItem>)
    ensures
        r@ == dedup_items(v@, by_path),
{
    let mut out: Vec<ContextItem> = Vec::new();
    let n = v.len();
    let mut i: usize = 0;
    while i < n
        invariant
            n == v.len(),
            i <= n,
            out@ == dedup_items(v@.subrange(0, i as int), by_path),
        decreases n - i,
    {
        assert(v@.subrange(0, i + 1).drop_last() =~= v@.subrange(0, i as int));
        if !has_key(&out, &v[i], by_path) {
            out.push(v[i].copy());
        }
        i = i + 1;
    }
    assert(v@.subrange(0, n as int) =~= v@);
    out
}

fn has_name(s: &Vec<ContextItem>, name: &String) -> (r: bool)
    ensures
        r == name_in(s@, name@),
{
    let n = s.len();
    let mut i: usize = 0;
    while i < n
        invariant
            n == s.len(),
            i <= n,
            forall|j: int| 0 <= j < i ==> s@[j].name@ != name@,
        decreases n - i,
    {
        if s[i].name == *name {
            return true;
        }
        i = i + 1;
    }
    false
}

fn drop_names(similar: &Vec<ContextItem>, relevant: &Vec<ContextItem>) -> (r: Vec<ContextItem>)
    ensures
        r@ == without_names(similar@, relevant@),
{
    let mut out: Vec<ContextItem> = Vec::new();
    let n = similar.len();
    let mut i: usize = 0;
    while i < n
        invariant
            n == similar.len(),
            i <= n,
            out@ == without_names(similar@.subrange(0, i as int), relevant@),
        decreases n - i,
    {
        assert(similar@.subrange(0, i + 1).drop_last() =~= similar@.subrange(0, i as int));
        assert(similar@.subrange(0, i + 1).last() == similar@[i as int]);
        if !has_name(relevant, &similar[i].name) {
            out.push(similar[i].copy());
        }
        i = i + 1;
    }
    assert(similar@.subrange(0, n as int) =~= similar@);
    out
}

/// Removes redundant items across and within the buckets.
pub struct DeduplicationEngine;

impl DeduplicationEngine {
    /// Keeps the first item of each key in every bucket but design tokens, then drops from
    /// the similar symbols each one named like a relevant symbol.
    pub fn deduplicate(context: &mut ContextData)
        ensures
            final(context)@ == dedup_spec(old(context)@),
    {
        let relevant = dedup_vec(&context.relevant_symbols, true);
        let similar_unique = dedup_vec(&context.similar_symbols, true);
        let similar = drop_names(&similar_unique, &relevant);
        let types = dedup_vec(&context.types, false);
        let constants = dedup_vec(&context.constants, false);
        let schemas = dedup_vec(&context.schemas, false);
        context.relevant_symbols = relevant;
        context.similar_symbols = similar;
        context.types = types;
        context.constants = constants;
        context.schemas = schemas;
    }
}

proof fn lemma_dedup_unique(s: Seq<ContextItem>, by_path: bool)
    ensures
        keys_unique(dedup_items(s, by_path), by_path),
    decreases s.len(),
{
    if s.len() > 0 {
        lemma_dedup_unique(s.drop_last(), by_path);
    }
}

proof fn lemma_dedup_of_unique(s: Seq<ContextItem>, by_path: bool)
    requires
        keys_unique(s, by_path),
    ensures
        dedup_items(s, by_path) == s,
    decreases s.len(),
{
    if s.len() > 0 {
        let p = s.drop_last();
        lemma_dedup_of_unique(p, by_path);
        assert(!key_in(p, s.last(), by_path)) by {
            if key_in(p, s.last(), by_path) {
                let i = choose|i: int| 0 <= i < p.len() && item_key(p[i], by_path) == item_key(s.last(), by_path);
                assert(item_key(s[i], by_path) == item_key(s[s.len() - 1], by_path));
            }
        }
        assert(p.push(s.last()) =~= s);
        assert(dedup_items(s, by_path) == dedup_items(p, by_path).push(s.last()));
    }
}

proof fn lemma_filter_twice(s: Seq<ContextItem>, pred: spec_fn(ContextItem) -> bool)
    ensures
        keep_where(keep_where(s, pred), pred) == keep_where(s, pred),
    decreases s.len(),
{
    if s.len() > 0 {
        lemma_filter_twice(s.drop_last(), pred);
        let sub = keep_where(s.drop_last(), pred);
        if pred(s.last()) {
            assert(sub.push(s.last()).drop_last() =~= sub);
        }
    }
}

/// Deduplication is idempotent: applying it to its own result changes nothing.
pub proof fn lemma_dedup_idempotent(c: ContextView)
    ensures
        dedup_spec(dedup_spec(c)) == dedup_spec(c),
{
    let d = dedup_spec(c);
    lemma_dedup_unique(c.relevant_symbols, true);
    lemma_dedup_of_unique(d.relevant_symbols, true);
    lemma_dedup_unique(c.types, false);
    lemma_dedup_of_unique(d.types, false);
    lemma_dedup_unique(c.constants, false);
    lemma_dedup_of_unique(d.constants, false);
    lemma_dedup_unique(c.schemas, false);
    lemma_dedup_of_unique(d.schemas, false);
    let pred = |e: ContextItem| !name_in(d.relevant_symbols, e.name@);
    lemma_dedup_unique(c.similar_symbols, true);
    lemma_keep_where_unique(dedup_items(c.similar_symbols, true), pred, true);
    lemma_dedup_of_unique(d.similar_symbols, true);
    lemma_filter_twice(dedup_items(c.similar_symbols, true), pred);
}

proof fn lemma_keep_where_from(s: Seq<ContextItem>, pred: spec_fn(ContextItem) -> bool)
    ensures
        forall|i: int|
            0 <= i < keep_where(s, pred).len() ==> exists|j: int| 0 <= j < s.len() && #[trigger] keep_where(s, pred)[i] == s[j],
    decreases s.len(),
{
    if s.len() > 0 {
        lemma_keep_where_from(s.drop_last(), pred);
        let sub = keep_where(s.drop_last(), pred);
        assert forall|i: int| 0 <= i < keep_where(s, pred).len() implies exists|j: int|
            0 <= j < s.len() && #[trigger] keep_where(s, pred)[i] == s[j] by {
            if i < sub.len() {
                let j = choose|j: int| 0 <= j < s.drop_last().len() && sub[i] == s.drop_last()[j];
                assert(keep_where(s, pred)[i] == s[j]);
            } else {
                assert(keep_where(s, pred)[i] == s[s.len() - 1]);
            }
        }
    }
}

proof fn lemma_keep_where_unique(s: Seq<ContextItem>, pred: spec_fn(ContextItem) -> bool, by_path: bool)
    requires
        keys_unique(s, by_path),
    ensures
        keys_unique(keep_where(s, pred), by_path),
    decreases s.len(),
{
    if s.len() > 0 {
        let p = s.drop_last();
        assert(keys_unique(p, by_path));
        lemma_keep_where_unique(p, pred, by_path);
        lemma_keep_where_from(p, pred);
        let sub = keep_where(p, pred);
        if pred(s.last()) {
            let r = sub.push(s.last());
            assert forall|i: int, j: int| 0 <= i < j < r.len() implies item_key(r[i], by_path) != item_key(r[j], by_path) by {
                if j == r.len() - 1 {
                    let k = choose|k: int| 0 <= k < p.len() && sub[i] == p[k];
                    assert(item_key(s[k], by_path) != item_key(s[s.len() - 1], by_path));
                } else {
                    assert(r[i] == sub[i] && r[j] == sub[j]);
                }
            }
        }
    }
}

// ---------------------------------------------------------------- pruning

/// The total number of characters of the contents of `s`.
pub open spec fn bucket_chars(s: Seq<ContextItem>) -> nat
    decreases s.len(),
{
    if s.len() == 0 {
        0
    } else {
        bucket_chars(s.drop_last()) + s.last().content@.len()
    }
}

/// The total number of characters of every bucket's contents.
pub open spec fn total_chars(c: ContextView) -> nat {
    bucket_chars(c.relevant_symbols) + bucket_chars(c.similar_symbols) + bucket_chars(c.types)
        + bucket_chars(c.constants) + bucket_chars(c.design_tokens) + bucket_chars(c.schemas)
}

/// The estimated token usage: four characters to a token.
pub open spec fn usage(c: ContextView) -> nat {
    total_chars(c) / 4
}

/// `x`, or `u128::MAX` when it is larger.
pub open spec fn saturate(x: nat) -> u128 {
    if x > u128::MAX {
        u128::MAX
    } else {
        x as u128
    }
}

/// Whether a file path looks like a test or a mock.
pub open spec fn is_test_path(p: Seq<char>) -> bool {
    has_infix(p, ".test."@) || has_infix(p, ".spec."@) || has_infix(p, "__tests__"@) || has_infix(p, "mock"@)
}

/// `s` without its items from test files.
pub open spec fn without_tests(s: Seq<ContextItem>) -> Seq<ContextItem> {
    keep_where(s, |e: ContextItem| !is_test_path(e.file_path@))
}

/// The most items a bucket keeps at the capping tier.
pub const MAX_ITEMS: usize = 10;

/// The first `MAX_ITEMS` items of `s`.
pub open spec fn capped(s: Seq<ContextItem>) -> Seq<ContextItem> {
    if s.len() > MAX_ITEMS {
        s.take(MAX_ITEMS as int)
    } else {
        s
    }
}

/// First tier: symbols from test files dropped.
pub open spec fn tier_tests(c: ContextView) -> ContextView {
    ContextView {
        relevant_symbols: without_tests(c.relevant_symbols),
        similar_symbols: without_tests(c.similar_symbols),
        ..c
    }
}

/// Second tier: every bucket capped.
pub open spec fn tier_cap(c: ContextView) -> ContextView {
    ContextView {
        relevant_symbols: capped(c.relevant_symbols),
        similar_symbols: capped(c.similar_symbols),
        types: capped(c.types),
        constants: capped(c.constants),
        design_tokens: capped(c.design_tokens),
        schemas: capped(c.schemas),
    }
}

/// Relevant symbols popped off the end until usage fits the budget or none is left.
pub open spec fn pop_until(c: ContextView, budget: nat) -> ContextView
    decreases c.relevant_symbols.len(),
{
    if usage(c) <= budget || c.relevant_symbols.len() == 0 {
        c
    } else {
        pop_until(ContextView { relevant_symbols: c.relevant_symbols.drop_last(), ..c }, budget)
    }
}

/// Third tier: secondary buckets cleared, then relevant symbols popped.
pub open spec fn tier_aggressive(c: ContextView, budget: nat) -> ContextView {
    pop_until(
        ContextView {
            similar_symbols: seq![],
            constants: seq![],
            design_tokens: seq![],
            ..c
        },
        budget,
    )
}

/// The tiers applied in order, stopping as soon as usage fits the budget.
pub open spec fn prune_spec(c: ContextView, budget: nat) -> ContextView {
    if usage(c) <= budget {
        c
    } else if usage(tier_tests(c)) <= budget {
        tier_tests(c)
    } else if usage(tier_cap(tier_tests(c))) <= budget {
        tier_cap(tier_tests(c))
    } else {
        tier_aggressive(tier_cap(tier_tests(c)), budget)
    }
}

/// Whether every bucket that pruning can empty is empty.
pub open spec fn prunable_empty(c: ContextView) -> bool {
    c.relevant_symbols.len() == 0 && c.similar_symbols.len() == 0 && c.constants.len() == 0
        && c.design_tokens.len() == 0
}

proof fn lemma_pop_until(c: ContextView, budget: nat)
    ensures
        usage(pop_until(c, budget)) <= budget || pop_until(c, budget).relevant_symbols.len() == 0,
        pop_until(c, budget).similar_symbols == c.similar_symbols,
        pop_until(c, budget).constants == c.constants,
        pop_until(c, budget).design_tokens == c.design_tokens,
        pop_until(c, budget).types == c.types,
        pop_until(c, budget).schemas == c.schemas,
    decreases c.relevant_symbols.len(),
{
    if !(usage(c) <= budget || c.relevant_symbols.len() == 0) {
        let c2 = ContextView { relevant_symbols: c.relevant_symbols.drop_last(), ..c };
        lemma_pop_until(c2, budget);
        assert(pop_until(c, budget) == pop_until(c2, budget));
        assert(c2.similar_symbols == c.similar_symbols);
    }
}

/// After pruning, either the usage fits the budget or every prunable bucket is empty.
pub proof fn lemma_prune_converges(c: ContextView, budget: nat)
    ensures
        usage(prune_spec(c, budget)) <= budget || prunable_empty(prune_spec(c, budget)),
{
    let c3 = tier_cap(tier_tests(c));
    let cleared = ContextView { similar_symbols: seq![], constants: seq![], design_tokens: seq![], ..c3 };
    lemma_pop_until(cleared, budget);
}

/// `a + b`, or `u128::MAX` when the sum is larger.
fn add_saturating(a: u128, b: u128) -> (r: u128)
    ensures
        r == (if a + b > u128::MAX { u128::MAX } else { (a + b) as u128 }),
{
    if a > u128::MAX - b {
        u128::MAX
    } else {
        a + b
    }
}

fn bucket_size(s: &Vec<ContextItem>) -> (r: u128)
    ensures
        r == saturate(bucket_chars(s@)),
{
    let mut total: u128 = 0;
    let n = s.len();
    let mut i: usize = 0;
    while i < n
        invariant
            n == s.len(),
            i <= n,
            total == saturate(bucket_chars(s@.subrange(0, i as int))),
        decreases n - i,
    {
        assert(s@.subrange(0, i + 1).drop_last() =~= s@.subrange(0, i as int));
        total = add_saturating(total, s[i].content.unicode_len() as u128);
        i = i + 1;
    }
    assert(s@.subrange(0, n as int) =~= s@);
    total
}

fn total_size(context: &ContextData) -> (r: u128)
    ensures
        r == saturate(total_chars(context@)),
{
    let a = bucket_size(&context.relevant_symbols);
    let b = bucket_size(&context.similar_symbols);
    let c = bucket_size(&context.types);
    let d = bucket_size(&context.constants);
    let e = bucket_size(&context.design_tokens);
    let f = bucket_size(&context.schemas);
    add_saturating(add_saturating(add_saturating(add_saturating(add_saturating(a, b), c), d), e), f)
}

/// Tiered shrinking of a context to a token budget.
pub struct SmartPruner {
    pub token_budget: usize,
}

impl SmartPruner {
    pub fn new(token_budget: usize) -> (r: SmartPruner)
        ensures
            r.token_budget == token_budget,
    {
        SmartPruner { token_budget }
    }

    /// The estimated token usage of `context`.
    pub fn calculate_usage(&self, context: &ContextData) -> (r: usize)
        requires
            total_chars(context@) <= usize::MAX,
        ensures
            r == usage(context@),
    {
        (total_size(context) as usize) / 4
    }

    /// Whether the estimated usage of `context` fits the budget.
    pub fn within_budget(&self, context: &ContextData) -> (r: bool)
        ensures
            r == (usage(context@) <= self.token_budget),
    {
        let t = total_size(context);
        let limit: u128 = 4 * (self.token_budget as u128) + 3;
        proof {
            let x = total_chars(context@);
            let b = self.token_budget as nat;
            assert(x / 4 <= b <==> x <= 4 * b + 3) by (nonlinear_arith);
        }
        t <= limit
    }

    /// Drops the symbols whose file path looks like a test or a mock.
    pub fn remove_test_files(&self, context: &mut ContextData)
        ensures
            final(context)@ == tier_tests(old(context)@),
    {
        let relevant = drop_tests(&context.relevant_symbols);
        let similar = drop_tests(&context.similar_symbols);
        context.relevant_symbols = relevant;
        context.similar_symbols = similar;
    }

    /// Keeps the first `MAX_ITEMS` items of every bucket.
    pub fn limit_items(&self, context: &mut ContextData)
        ensures
            final(context)@ == tier_cap(old(context)@),
    {
        cap_vec(&mut context.relevant_symbols);
        cap_vec(&mut context.similar_symbols);
        cap_vec(&mut context.types);
        cap_vec(&mut context.constants);
        cap_vec(&mut context.design_tokens);
        cap_vec(&mut context.schemas);
    }

    /// Clears the secondary buckets, then pops relevant symbols until usage fits.
    pub fn aggressive_prune(&self, context: &mut ContextData)
        ensures
            final(context)@ == tier_aggressive(old(context)@, self.token_budget as nat),
    {
        context.similar_symbols.clear();
        context.constants.clear();
        context.design_tokens.clear();
        assert(context@ == ContextView {
            similar_symbols: seq![],
            constants: seq![],
            design_tokens: seq![],
            ..old(context)@
        });
        while !self.within_budget(context) && context.relevant_symbols.len() > 0
            invariant
                pop_until(context@, self.token_budget as nat)
                    == tier_aggressive(old(context)@, self.token_budget as nat),
            decreases context.relevant_symbols.len(),
        {
            let ghost before = context@;
            context.relevant_symbols.pop();
            assert(context@ == ContextView { relevant_symbols: before.relevant_symbols.drop_last(), ..before });
        }
    }

    /// Applies the tiers in order, stopping as soon as usage fits the budget.
    pub fn prune(&self, context: &mut ContextData)
        ensures
            final(context)@ == prune_spec(old(context)@, self.token_budget as nat),
    {
        if self.within_budget(context) {
            return;
        }
        self.remove_test_files(context);
        if self.within_budget(context) {
            return;
        }
        self.limit_items(context);
        if self.within_budget(context) {
            return;
        }
        self.aggressive_prune(context);
    }
}

fn cap_vec(v: &mut Vec<ContextItem>)
    ensures
        final(v)@ == capped(old(v)@),
{
    if v.len() > MAX_ITEMS {
        v.truncate(MAX_ITEMS);
    }
}

/// Whether a file path looks like a test or a mock.
pub fn is_test_file(path: &str) -> (r: bool)
    ensures
        r == is_test_path(path@),
{
    contains_str(path, ".test.") || contains_str(path, ".spec.") || contains_str(path, "__tests__")
        || contains_str(path, "mock")
}

fn drop_tests(v: &Vec<ContextItem>) -> (r: Vec<ContextItem>)
    ensures
        r@ == without_tests(v@),
{
    let mut out: Vec<ContextItem> = Vec::new();
    let n = v.len();
    let mut i: usize = 0;
    while i < n
        invariant
            n == v.len(),
            i <= n,
            out@ == without_tests(v@.subrange(0, i as int)),
        decreases n - i,
    {
        assert(v@.subrange(0, i + 1).drop_last() =~= v@.subrange(0, i as int));
        assert(v@.subrange(0, i + 1).last() == v@[i as int]);
        if !is_test_file(v[i].file_path.as_str()) {
            out.push(v[i].copy());
        }
        i = i + 1;
    }
    assert(v@.subrange(0, n as int) =~= v@);
    out
}

} // verus!
