use vstd::prelude::*;

use crate::json::{decode_reply, get_member, get_str_member, member, reply_json, str_member, JsonValue};
use crate::registry::{builtin_dependencies, builtin_profile, registered_dependencies, registered_profile, views, PromptRegistry, SpecializedPrompt};
use crate::schedule::{build_execution_plan, execution_order};
use crate::text::{join, joined, trim, trim_spec};

verus! {

broadcast use vstd::seq::Seq::lemma_push_map_commute;

/// A single search query the planner wants executed.
pub struct SearchQuery {
    /// Natural-language or keyword query.
    pub query: String,
    /// What the query expects to find (`component`, `type`, `schema`, `api`, ...).
    pub kind: Option<String>,
    /// Directories or path prefixes thought relevant.
    pub target_paths: Vec<String>,
}

/// A plan for running one specialized worker.
pub struct WorkerPlan {
    pub worker_id: String,
    pub description: String,
    pub queries: Vec<SearchQuery>,
}

/// The planner's output: an intent label, general queries, per-worker plans and the
/// order in which the workers run.
pub struct SearchPlan {
    pub global_intent: String,
    pub search_queries: Vec<SearchQuery>,
    pub workers: Vec<WorkerPlan>,
    /// Worker ids in execution order; derived from `workers`, never authored.
    pub execution_plan: Vec<String>,
}

pub struct SearchQueryView {
    pub query: Seq<char>,
    pub kind: Option<Seq<char>>,
    pub target_paths: Seq<Seq<char>>,
}

pub struct WorkerPlanView {
    pub worker_id: Seq<char>,
    pub description: Seq<char>,
    pub queries: Seq<SearchQueryView>,
}

pub struct SearchPlanView {
    pub global_intent: Seq<char>,
    pub search_queries: Seq<SearchQueryView>,
    pub workers: Seq<WorkerPlanView>,
    pub execution_plan: Seq<Seq<char>>,
}

/// The view of an optional string.
pub open spec fn opt_str(s: Option<String>) -> Option<Seq<char>> {
    match s {
        Some(x) => Some(x@),
        None => None,
    }
}

impl View for SearchQuery {
    type V = SearchQueryView;

    open spec fn view(&self) -> SearchQueryView {
        SearchQueryView { query: self.query@, kind: opt_str(self.kind), target_paths: views(self.target_paths@) }
    }
}

impl View for WorkerPlan {
    type V = WorkerPlanView;

    open spec fn view(&self) -> WorkerPlanView {
        WorkerPlanView {
            worker_id: self.worker_id@,
            description: self.description@,
            queries: self.queries@.map_values(|q: SearchQuery| q@),
        }
    }
}

impl View for SearchPlan {
    type V = SearchPlanView;

    open spec fn view(&self) -> SearchPlanView {
        SearchPlanView {
            global_intent: self.global_intent@,
            search_queries: self.search_queries@.map_values(|q: SearchQuery| q@),
            workers: self.workers@.map_values(|w: WorkerPlan| w@),
            execution_plan: views(self.execution_plan@),
        }
    }
}

/// The non-empty trimmed queries of `qs`, in order.
pub open spec fn trimmed_queries(qs: Seq<SearchQueryView>) -> Seq<Seq<char>>
    decreases qs.len(),
{
    if qs.len() == 0 {
        seq![]
    } else if trim_spec(qs.last().query).len() > 0 {
        trimmed_queries(qs.drop_last()).push(trim_spec(qs.last().query))
    } else {
        trimmed_queries(qs.drop_last())
    }
}

/// The non-empty trimmed queries of each worker of `ws`, worker after worker.
pub open spec fn worker_queries(ws: Seq<WorkerPlanView>) -> Seq<Seq<char>>
    decreases ws.len(),
{
    if ws.len() == 0 {
        seq![]
    } else {
        worker_queries(ws.drop_last()) + trimmed_queries(ws.last().queries)
    }
}

/// Whether a plan says nothing: blank intent, no query, no worker.
pub open spec fn plan_is_empty(p: SearchPlanView) -> bool {
    trim_spec(p.global_intent).len() == 0 && p.search_queries.len() == 0 && p.workers.len() == 0
}

/// The worker ids of `ws`, in order.
pub open spec fn worker_ids(ws: Seq<WorkerPlanView>) -> Seq<Seq<char>> {
    ws.map_values(|w: WorkerPlanView| w.worker_id)
}

fn trimmed_into(out: &mut Vec<String>, qs: &Vec<SearchQuery>)
    ensures
        views(final(out)@) == views(old(out)@) + trimmed_queries(qs@.map_values(|q: SearchQuery| q@)),
{
    let ghost start = views(out@);
    let ghost all = qs@.map_values(|q: SearchQuery| q@);
    let n = qs.len();
    let mut i: usize = 0;
    while i < n
        invariant
            n == qs.len(),
            all == qs@.map_values(|q: SearchQuery| q@),
            i <= n,
            views(out@) == start + trimmed_queries(all.subrange(0, i as int)),
        decreases n - i,
    {
        assert(all.subrange(0, i + 1).drop_last() =~= all.subrange(0, i as int));
        assert(all.subrange(0, i + 1).last() == qs@[i as int]@);
        let t = trim(qs[i].query.as_str());
        if t.unicode_len() > 0 {
            out.push(t.to_string());
            assert(views(out@) =~= start + trimmed_queries(all.subrange(0, i + 1)));
        }
        i = i + 1;
    }
    assert(all.subrange(0, n as int) =~= all);
}

impl SearchPlan {
    /// Every non-empty trimmed query: the general ones first, then each worker's.
    pub fn all_query_strings(&self) -> (r: Vec<String>)
        ensures
            views(r@) == trimmed_queries(self@.search_queries) + worker_queries(self@.workers),
    {
        let mut out: Vec<String> = Vec::new();
        trimmed_into(&mut out, &self.search_queries);
        let ghost first = views(out@);
        let ghost ws = self@.workers;
        let n = self.workers.len();
        let mut i: usize = 0;
        assert(first =~= Seq::<Seq<char>>::empty() + trimmed_queries(self@.search_queries));
        while i < n
            invariant
                n == self.workers.len(),
                ws == self@.workers,
                i <= n,
                views(out@) == first + worker_queries(ws.subrange(0, i as int)),
            decreases n - i,
        {
            assert(ws.subrange(0, i + 1).drop_last() =~= ws.subrange(0, i as int));
            assert(ws.subrange(0, i + 1).last() == self.workers@[i as int]@);
            trimmed_into(&mut out, &self.workers[i].queries);
            assert(views(out@) =~= first + worker_queries(ws.subrange(0, i + 1)));
            i = i + 1;
        }
        assert(ws.subrange(0, n as int) =~= ws);
        assert(views(out@) =~= trimmed_queries(self@.search_queries) + worker_queries(self@.workers));
        out
    }

    /// Whether the plan says nothing: blank intent, no query, no worker.
    pub fn is_empty(&self) -> (r: bool)
        ensures
            r == plan_is_empty(self@),
    {
        trim(self.global_intent.as_str()).unicode_len() == 0 && self.search_queries.len() == 0
            && self.workers.len() == 0
    }
}

// ---------------------------------------------------------------- decoding a plan

/// The strings of `xs`, when each is a string.
pub open spec fn str_list_of(xs: Seq<JsonValue>) -> Option<Seq<Seq<char>>>
    decreases xs.len(),
{
    if xs.len() == 0 {
        Some(seq![])
    } else {
        match (str_list_of(xs.drop_last()), xs.last()) {
            (Some(ss), JsonValue::Str(s)) => Some(ss.push(s@)),
            _ => None,
        }
    }
}

/// A member that defaults to an empty list of strings when absent.
pub open spec fn str_list_member(m: Option<JsonValue>) -> Option<Seq<Seq<char>>> {
    match m {
        None => Some(seq![]),
        Some(JsonValue::Array(xs)) => str_list_of(xs@),
        Some(_) => None,
    }
}

/// A member that defaults to the empty string when absent.
pub open spec fn text_member(m: Option<JsonValue>) -> Option<Seq<char>> {
    match m {
        None => Some(seq![]),
        Some(JsonValue::Str(s)) => Some(s@),
        Some(_) => None,
    }
}

/// A search query decoded from JSON: `query` is required, `kind` may be absent or null,
/// `target_paths` defaults to empty.
pub open spec fn query_of(v: JsonValue) -> Option<SearchQueryView> {
    match v {
        JsonValue::Object(ms) => match (member(ms@, "query"@), member(ms@, "kind"@), str_list_member(
            member(ms@, "target_paths"@),
        )) {
            (Some(JsonValue::Str(q)), None, Some(ps)) => Some(
                SearchQueryView { query: q@, kind: None, target_paths: ps },
            ),
            (Some(JsonValue::Str(q)), Some(JsonValue::Null), Some(ps)) => Some(
                SearchQueryView { query: q@, kind: None, target_paths: ps },
            ),
            (Some(JsonValue::Str(q)), Some(JsonValue::Str(k)), Some(ps)) => Some(
                SearchQueryView { query: q@, kind: Some(k@), target_paths: ps },
            ),
            _ => None,
        },
        _ => None,
    }
}

/// The queries of `xs`, when each decodes.
pub open spec fn query_list_of(xs: Seq<JsonValue>) -> Option<Seq<SearchQueryView>>
    decreases xs.len(),
{
    if xs.len() == 0 {
        Some(seq![])
    } else {
        match (query_list_of(xs.drop_last()), query_of(xs.last())) {
            (Some(qs), Some(q)) => Some(qs.push(q)),
            _ => None,
        }
    }
}

/// A member that defaults to no query when absent.
pub open spec fn query_list_member(m: Option<JsonValue>) -> Option<Seq<SearchQueryView>> {
    match m {
        None => Some(seq![]),
        Some(JsonValue::Array(xs)) => query_list_of(xs@),
        Some(_) => None,
    }
}

/// A worker plan decoded from JSON: `worker_id` and `description` are required,
/// `queries` defaults to empty.
pub open spec fn worker_of(v: JsonValue) -> Option<WorkerPlanView> {
    match v {
        JsonValue::Object(ms) => match (member(ms@, "worker_id"@), member(ms@, "description"@), query_list_member(
            member(ms@, "queries"@),
        )) {
            (Some(JsonValue::Str(w)), Some(JsonValue::Str(d)), Some(qs)) => Some(
                WorkerPlanView { worker_id: w@, description: d@, queries: qs },
            ),
            _ => None,
        },
        _ => None,
    }
}

/// The worker plans of `xs`, when each decodes.
pub open spec fn worker_list_of(xs: Seq<JsonValue>) -> Option<Seq<WorkerPlanView>>
    decreases xs.len(),
{
    if xs.len() == 0 {
        Some(seq![])
    } else {
        match (worker_list_of(xs.drop_last()), worker_of(xs.last())) {
            (Some(ws), Some(w)) => Some(ws.push(w)),
            _ => None,
        }
    }
}

/// A member that defaults to no worker when absent.
pub open spec fn worker_list_member(m: Option<JsonValue>) -> Option<Seq<WorkerPlanView>> {
    match m {
        None => Some(seq![]),
        Some(JsonValue::Array(xs)) => worker_list_of(xs@),
        Some(_) => None,
    }
}

/// A search plan decoded from JSON: an object whose members all default when absent.
pub open spec fn plan_of(v: JsonValue) -> Option<SearchPlanView> {
    match v {
        JsonValue::Object(ms) => match (
            text_member(member(ms@, "global_intent"@)),
            query_list_member(member(ms@, "search_queries"@)),
            worker_list_member(member(ms@, "workers"@)),
            str_list_member(member(ms@, "execution_plan"@)),
        ) {
            (Some(g), Some(qs), Some(ws), Some(ep)) => Some(
                SearchPlanView { global_intent: g, search_queries: qs, workers: ws, execution_plan: ep },
            ),
            _ => None,
        },
        _ => None,
    }
}

/// The plan a planner reply carries.
pub open spec fn decoded_plan(reply: Seq<char>) -> Option<SearchPlanView> {
    match reply_json(reply) {
        Some(v) => plan_of(v),
        None => None,
    }
}

fn str_list_from(xs: &Vec<JsonValue>) -> (r: Option<Vec<String>>)
    ensures
        match r {
            Some(v) => str_list_of(xs@) == Some(views(v@)),
            None => str_list_of(xs@) is None,
        },
{
    let mut out: Vec<String> = Vec::new();
    let n = xs.len();
    let mut i: usize = 0;
    while i < n
        invariant
            n == xs.len(),
            i <= n,
            str_list_of(xs@.subrange(0, i as int)) == Some(views(out@)),
        decreases n - i,
    {
        assert(xs@.subrange(0, i + 1).drop_last() =~= xs@.subrange(0, i as int));
        match &xs[i] {
            JsonValue::Str(s) => {
                out.push(s.clone());
                assert(views(out@) =~= views(out@).drop_last().push(s@));
            },
            _ => {
                proof {
                    lemma_list_none_str(xs@, i + 1);
                }
                return None;
            },
        }
        i = i + 1;
    }
    assert(xs@.subrange(0, n as int) =~= xs@);
    Some(out)
}

proof fn lemma_list_none_str(xs: Seq<JsonValue>, k: int)
    requires
        0 < k <= xs.len(),
        !(xs[k - 1] matches JsonValue::Str(_)),
    ensures
        str_list_of(xs) is None,
    decreases xs.len(),
{
    if k < xs.len() {
        lemma_list_none_str(xs.drop_last(), k);
    }
}

fn str_list_member_from(m: Option<&JsonValue>) -> (r: Option<Vec<String>>)
    ensures
        match r {
            Some(v) => str_list_member(opt_deref(m)) == Some(views(v@)),
            None => str_list_member(opt_deref(m)) is None,
        },
{
    match m {
        None => Some(Vec::new()),
        Some(JsonValue::Array(xs)) => str_list_from(xs),
        Some(_) => None,
    }
}

/// The value behind an optional reference.
pub open spec fn opt_deref(m: Option<&JsonValue>) -> Option<JsonValue> {
    match m {
        Some(x) => Some(*x),
        None => None,
    }
}

fn query_from(v: &JsonValue) -> (r: Option<SearchQuery>)
    ensures
        match r {
            Some(q) => query_of(*v) == Some(q@),
            None => query_of(*v) is None,
        },
{
    proof {
        reveal_strlit("query");
        reveal_strlit("kind");
        reveal_strlit("target_paths");
    }
    match v {
        JsonValue::Object(_) => {
            let q = get_member(v, "query");
            let k = get_member(v, "kind");
            let ps = str_list_member_from(get_member(v, "target_paths"));
            match (q, k, ps) {
                (Some(JsonValue::Str(q)), None, Some(ps)) => Some(
                    SearchQuery { query: q.clone(), kind: None, target_paths: ps },
                ),
                (Some(JsonValue::Str(q)), Some(JsonValue::Null), Some(ps)) => Some(
                    SearchQuery { query: q.clone(), kind: None, target_paths: ps },
                ),
                (Some(JsonValue::Str(q)), Some(JsonValue::Str(k)), Some(ps)) => Some(
                    SearchQuery { query: q.clone(), kind: Some(k.clone()), target_paths: ps },
                ),
                _ => None,
            }
        },
        _ => None,
    }
}

fn query_list_from(xs: &Vec<JsonValue>) -> (r: Option<Vec<SearchQuery>>)
    ensures
        match r {
            Some(v) => query_list_of(xs@) == Some(v@.map_values(|q: SearchQuery| q@)),
            None => query_list_of(xs@) is None,
        },
{
    let mut out: Vec<SearchQuery> = Vec::new();
    let n = xs.len();
    let mut i: usize = 0;
    while i < n
        invariant
            n == xs.len(),
            i <= n,
            query_list_of(xs@.subrange(0, i as int)) == Some(out@.map_values(|q: SearchQuery| q@)),
        decreases n - i,
    {
        assert(xs@.subrange(0, i + 1).drop_last() =~= xs@.subrange(0, i as int));
        match query_from(&xs[i]) {
            Some(q) => {
                let ghost before = out@;
                out.push(q);
                assert(out@.map_values(|q: SearchQuery| q@) =~= before.map_values(|q: SearchQuery| q@).push(
                    q@,
                ));
            },
            None => {
                proof {
                    lemma_list_none_query(xs@, i + 1);
                }
                return None;
            },
        }
        i = i + 1;
    }
    assert(xs@.subrange(0, n as int) =~= xs@);
    Some(out)
}

proof fn lemma_list_none_query(xs: Seq<JsonValue>, k: int)
    requires
        0 < k <= xs.len(),
        query_of(xs[k - 1]) is None,
    ensures
        query_list_of(xs) is None,
    decreases xs.len(),
{
    if k < xs.len() {
        lemma_list_none_query(xs.drop_last(), k);
    }
}

fn query_list_member_from(m: Option<&JsonValue>) -> (r: Option<Vec<SearchQuery>>)
    ensures
        match r {
            Some(v) => query_list_member(opt_deref(m)) == Some(v@.map_values(|q: SearchQuery| q@)),
            None => query_list_member(opt_deref(m)) is None,
        },
{
    match m {
        None => Some(Vec::new()),
        Some(JsonValue::Array(xs)) => query_list_from(xs),
        Some(_) => None,
    }
}

fn worker_from(v: &JsonValue) -> (r: Option<WorkerPlan>)
    ensures
        match r {
            Some(w) => worker_of(*v) == Some(w@),
            None => worker_of(*v) is None,
        },
{
    proof {
        reveal_strlit("worker_id");
        reveal_strlit("description");
        reveal_strlit("queries");
    }
    match v {
        JsonValue::Object(_) => {
            let w = get_member(v, "worker_id");
            let d = get_member(v, "description");
            let qs = query_list_member_from(get_member(v, "queries"));
            match (w, d, qs) {
                (Some(JsonValue::Str(w)), Some(JsonValue::Str(d)), Some(qs)) => Some(
                    WorkerPlan { worker_id: w.clone(), description: d.clone(), queries: qs },
                ),
                _ => None,
            }
        },
        _ => None,
    }
}

fn worker_list_from(xs: &Vec<JsonValue>) -> (r: Option<Vec<WorkerPlan>>)
    ensures
        match r {
            Some(v) => worker_list_of(xs@) == Some(v@.map_values(|w: WorkerPlan| w@)),
            None => worker_list_of(xs@) is None,
        },
{
    let mut out: Vec<WorkerPlan> = Vec::new();
    let n = xs.len();
    let mut i: usize = 0;
    while i < n
        invariant
            n == xs.len(),
            i <= n,
            worker_list_of(xs@.subrange(0, i as int)) == Some(out@.map_values(|w: WorkerPlan| w@)),
        decreases n - i,
    {
        assert(xs@.subrange(0, i + 1).drop_last() =~= xs@.subrange(0, i as int));
        match worker_from(&xs[i]) {
            Some(w) => {
                let ghost before = out@;
                out.push(w);
                assert(out@.map_values(|w: WorkerPlan| w@) =~= before.map_values(|w: WorkerPlan| w@).push(w@));
            },
            None => {
                proof {
                    lemma_list_none_worker(xs@, i + 1);
                }
                return None;
            },
        }
        i = i + 1;
    }
    assert(xs@.subrange(0, n as int) =~= xs@);
    Some(out)
}

proof fn lemma_list_none_worker(xs: Seq<JsonValue>, k: int)
    requires
        0 < k <= xs.len(),
        worker_of(xs[k - 1]) is None,
    ensures
        worker_list_of(xs) is None,
    decreases xs.len(),
{
    if k < xs.len() {
        lemma_list_none_worker(xs.drop_last(), k);
    }
}

fn worker_list_member_from(m: Option<&JsonValue>) -> (r: Option<Vec<WorkerPlan>>)
    ensures
        match r {
            Some(v) => worker_list_member(opt_deref(m)) == Some(v@.map_values(|w: WorkerPlan| w@)),
            None => worker_list_member(opt_deref(m)) is None,
        },
{
    match m {
        None => Some(Vec::new()),
        Some(JsonValue::Array(xs)) => worker_list_from(xs),
        Some(_) => None,
    }
}

fn text_member_from(m: Option<&JsonValue>) -> (r: Option<String>)
    ensures
        opt_str(r) == text_member(opt_deref(m)),
{
    match m {
        None => Some(String::new()),
        Some(JsonValue::Str(s)) => Some(s.clone()),
        Some(_) => None,
    }
}

/// The search plan that a decoded JSON value describes.
pub fn plan_from_json(v: &JsonValue) -> (r: Option<SearchPlan>)
    ensures
        match r {
            Some(p) => plan_of(*v) == Some(p@),
            None => plan_of(*v) is None,
        },
{
    proof {
        reveal_strlit("global_intent");
        reveal_strlit("search_queries");
        reveal_strlit("workers");
        reveal_strlit("execution_plan");
    }
    match v {
        JsonValue::Object(_) => {
            let g = text_member_from(get_member(v, "global_intent"));
            let qs = query_list_member_from(get_member(v, "search_queries"));
            let ws = worker_list_member_from(get_member(v, "workers"));
            let ep = str_list_member_from(get_member(v, "execution_plan"));
            match (g, qs, ws, ep) {
                (Some(g), Some(qs), Some(ws), Some(ep)) => Some(
                    SearchPlan { global_intent: g, search_queries: qs, workers: ws, execution_plan: ep },
                ),
                _ => None,
            }
        },
        _ => None,
    }
}

// ---------------------------------------------------------------- planning

/// The generic query that stands for the whole task.
pub open spec fn generic_query(task: Seq<char>) -> SearchQueryView {
    SearchQueryView { query: task, kind: Some("any"@), target_paths: seq![] }
}

/// One worker plan for each key of `keys` that the registry knows, carrying the
/// generic query.
pub open spec fn fallback_workers(reg: &PromptRegistry, keys: Seq<Seq<char>>, task: Seq<char>) -> Seq<
    WorkerPlanView,
>
    decreases keys.len(),
{
    if keys.len() == 0 {
        seq![]
    } else {
        match reg.spec_get(keys.last()) {
            Some(p) => fallback_workers(reg, keys.drop_last(), task).push(
                WorkerPlanView { worker_id: keys.last(), description: p.description@, queries: seq![generic_query(task)] },
            ),
            None => fallback_workers(reg, keys.drop_last(), task),
        }
    }
}

/// The most recommended workers a fallback plan considers.
pub const FALLBACK_WORKERS: usize = 3;

/// The plan used when the planner's reply cannot be used.
pub open spec fn fallback_plan(reg: &PromptRegistry, task: Seq<char>, recommended: Seq<Seq<char>>) -> SearchPlanView {
    SearchPlanView {
        global_intent: "fallback_plan"@,
        search_queries: seq![generic_query(task)],
        workers: fallback_workers(
            reg,
            if recommended.len() > FALLBACK_WORKERS { recommended.take(FALLBACK_WORKERS as int) } else { recommended },
            task,
        ),
        execution_plan: seq![],
    }
}

/// `p` with its execution order computed from its workers.
pub open spec fn scheduled(reg: &PromptRegistry, p: SearchPlanView) -> SearchPlanView {
    SearchPlanView { execution_plan: execution_order(reg, worker_ids(p.workers)), ..p }
}

/// The plan made from a planner reply: the decoded plan when it says something, the
/// fallback plan otherwise; either way with its execution order.
pub open spec fn planned(reg: &PromptRegistry, reply: Seq<char>, task: Seq<char>, recommended: Seq<Seq<char>>) -> SearchPlanView {
    match decoded_plan(reply) {
        Some(p) => if !plan_is_empty(p) {
            scheduled(reg, p)
        } else {
            scheduled(reg, fallback_plan(reg, task, recommended))
        },
        None => scheduled(reg, fallback_plan(reg, task, recommended)),
    }
}

/// The task type a classification reply names, `"feature"` when it names none.
pub open spec fn task_type_of(reply: Seq<char>) -> Seq<char> {
    match reply_json(reply) {
        Some(v) => match str_member(v, "task_type"@) {
            Some(t) => t,
            None => "feature"@,
        },
        None => "feature"@,
    }
}

fn generic_search_query(task: &str) -> (r: SearchQuery)
    ensures
        r@ == generic_query(task@),
{
    let r = SearchQuery { query: task.to_string(), kind: Some("any".to_string()), target_paths: Vec::new() };
    assert(views(r.target_paths@) =~= Seq::<Seq<char>>::empty());
    r
}

/// Plans searches over the codebase with the help of a text-generation backend: this
/// part holds the registry and turns the backend's replies into plans.
pub struct GeminiRouterAgent {
    pub registry: PromptRegistry,
}

impl GeminiRouterAgent {
    /// A planner over the built-in prompt catalog.
    pub fn new() -> (r: GeminiRouterAgent)
        ensures
            r.registry.wf(),
            forall|k: Seq<char>| registered_dependencies(r.registry, k) == builtin_dependencies(k),
            forall|k: Seq<char>| registered_profile(r.registry, k) == builtin_profile(k),
    {
        GeminiRouterAgent { registry: PromptRegistry::new() }
    }

    /// A planner over `registry`.
    pub fn with_registry(registry: PromptRegistry) -> (r: GeminiRouterAgent)
        ensures
            r.registry == registry,
    {
        GeminiRouterAgent { registry }
    }

    /// Orders `worker_ids` after their dependencies; see `schedule::build_execution_plan`.
    pub fn build_execution_plan(&self, worker_ids: &[String]) -> (r: Vec<String>)
        ensures
            views(r@) == execution_order(&self.registry, views(worker_ids@)),
    {
        build_execution_plan(&self.registry, worker_ids)
    }

    /// The fallback plan: one generic query equal to the task, and a worker plan for each
    /// of the first `FALLBACK_WORKERS` recommended workers that the registry knows.
    pub fn create_fallback_plan(&self, user_prompt: &str, recommended_workers: &[String]) -> (r: SearchPlan)
        ensures
            r@ == fallback_plan(&self.registry, user_prompt@, views(recommended_workers@)),
    {
        proof {
            reveal_strlit("fallback_plan");
            reveal_strlit("any");
        }
        let ghost rec = views(recommended_workers@);
        let ghost keys = if rec.len() > FALLBACK_WORKERS { rec.take(FALLBACK_WORKERS as int) } else { rec };
        let n = if recommended_workers.len() > FALLBACK_WORKERS { FALLBACK_WORKERS } else { recommended_workers.len() };
        assert(keys.len() == n);
        let mut workers: Vec<WorkerPlan> = Vec::new();
        let mut i: usize = 0;
        while i < n
            invariant
                n <= recommended_workers@.len(),
                keys.len() == n,
                rec == views(recommended_workers@),
                forall|j: int| 0 <= j < n ==> keys[j] == rec[j],
                i <= n,
                workers@.map_values(|w: WorkerPlan| w@) == fallback_workers(&self.registry, keys.subrange(0, i as int), user_prompt@),
            decreases n - i,
        {
            assert(keys.subrange(0, i + 1).drop_last() =~= keys.subrange(0, i as int));
            assert(keys.subrange(0, i + 1).last() == recommended_workers@[i as int]@);
            let key = &recommended_workers[i];
            match self.registry.get_prompt(key.as_str()) {
                Some(p) => {
                    let ghost before = workers@;
                    let q = generic_search_query(user_prompt);
                    let w = WorkerPlan { worker_id: key.clone(), description: p.description.clone(), queries: vec![q] };
                    assert(w.queries@.map_values(|q: SearchQuery| q@) =~= seq![generic_query(user_prompt@)]);
                    workers.push(w);
                    assert(workers@.map_values(|w: WorkerPlan| w@) =~= before.map_values(|w: WorkerPlan| w@).push(w@));
                },
                None => {},
            }
            i = i + 1;
        }
        assert(keys.subrange(0, n as int) =~= keys);
        let q = generic_search_query(user_prompt);
        let r = SearchPlan {
            global_intent: "fallback_plan".to_string(),
            search_queries: vec![q],
            workers,
            execution_plan: Vec::new(),
        };
        assert(r@.search_queries =~= seq![generic_query(user_prompt@)]);
        assert(r@.execution_plan =~= Seq::<Seq<char>>::empty());
        r
    }

    /// `plan` with its execution order computed from its workers.
    pub fn schedule_plan(&self, plan: SearchPlan) -> (r: SearchPlan)
        ensures
            r@ == scheduled(&self.registry, plan@),
    {
        let mut ids: Vec<String> = Vec::new();
        let n = plan.workers.len();
        let mut i: usize = 0;
        while i < n
            invariant
                n == plan.workers.len(),
                i <= n,
                views(ids@) == worker_ids(plan@.workers).subrange(0, i as int),
            decreases n - i,
        {
            ids.push(plan.workers[i].worker_id.clone());
            assert(worker_ids(plan@.workers)[i as int] == plan.workers@[i as int].worker_id@);
            assert(views(ids@) =~= worker_ids(plan@.workers).subrange(0, i + 1));
            i = i + 1;
        }
        assert(worker_ids(plan@.workers).subrange(0, n as int) =~= worker_ids(plan@.workers));
        let order = build_execution_plan(&self.registry, ids.as_slice());
        SearchPlan { execution_plan: order, ..plan }
    }

    /// The plan for `user_prompt` given the planner's `reply`: the decoded plan when it
    /// parses and says something, the fallback plan otherwise; with its execution order.
    pub fn plan_from_reply(&self, reply: &str, user_prompt: &str, recommended_workers: &[String]) -> (r: SearchPlan)
        ensures
            r@ == planned(&self.registry, reply@, user_prompt@, views(recommended_workers@)),
    {
        let decoded = match decode_reply(reply) {
            Some(v) => plan_from_json(&v),
            None => None,
        };
        match decoded {
            Some(p) => {
                if !p.is_empty() {
                    return self.schedule_plan(p);
                }
            },
            None => {},
        }
        let f = self.create_fallback_plan(user_prompt, recommended_workers);
        self.schedule_plan(f)
    }

    /// The task type named by a classification reply, `"feature"` when it names none.
    pub fn task_type_from_reply(&self, reply: &str) -> (r: String)
        ensures
            r@ == task_type_of(reply@),
    {
        proof {
            reveal_strlit("task_type");
            reveal_strlit("feature");
        }
        match decode_reply(reply) {
            Some(v) => match get_str_member(&v, "task_type") {
                Some(t) => t,
                None => "feature".to_string(),
            },
            None => "feature".to_string(),
        }
    }
}

/// One line per registered worker: "- key: description".
pub open spec fn worker_lines(ps: Seq<SpecializedPrompt>) -> Seq<Seq<char>> {
    ps.map_values(|p: SpecializedPrompt| "- "@ + p.key@ + ": "@ + p.description@)
}

impl GeminiRouterAgent {
    /// The registered workers, one "- key: description" line each, in registry order.
    pub fn get_available_workers_description(&self) -> (r: String)
        ensures
            r@ == joined(worker_lines(self.registry.entries()), "\n"@),
    {
        let all = self.registry.get_all_prompts();
        let mut lines: Vec<String> = Vec::new();
        let n = all.len();
        let mut i: usize = 0;
        while i < n
            invariant
                n == all@.len(),
                all@ == self.registry.entries(),
                i <= n,
                views(lines@) == worker_lines(all@).take(i as int),
            decreases n - i,
        {
            let p = &all[i];
            let mut line = "- ".to_string();
            line.append(p.key.as_str());
            line.append(": ");
            line.append(p.description.as_str());
            lines.push(line);
            assert(views(lines@) =~= worker_lines(all@).take(i + 1));
            i = i + 1;
        }
        assert(worker_lines(all@).take(n as int) =~= worker_lines(all@));
        join(lines.as_slice(), "\n")
    }
}

proof fn lemma_fallback_workers_len(reg: &PromptRegistry, keys: Seq<Seq<char>>, task: Seq<char>)
    ensures
        fallback_workers(reg, keys, task).len() <= keys.len(),
    decreases keys.len(),
{
    if keys.len() > 0 {
        lemma_fallback_workers_len(reg, keys.drop_last(), task);
    }
}

/// When the planner's reply cannot be decoded, the plan is the fallback: intent
/// `fallback_plan`, exactly one general query, equal to the task, and at most
/// `FALLBACK_WORKERS` workers.
pub proof fn lemma_unparseable_reply_falls_back(
    reg: &PromptRegistry,
    reply: Seq<char>,
    task: Seq<char>,
    recommended: Seq<Seq<char>>,
)
    requires
        decoded_plan(reply) is None,
    ensures
        planned(reg, reply, task, recommended).global_intent == "fallback_plan"@,
        planned(reg, reply, task, recommended).search_queries.len() == 1,
        planned(reg, reply, task, recommended).search_queries[0].query == task,
        planned(reg, reply, task, recommended).workers.len() <= FALLBACK_WORKERS,
{
    let rec = if recommended.len() > FALLBACK_WORKERS { recommended.take(FALLBACK_WORKERS as int) } else { recommended };
    lemma_fallback_workers_len(reg, rec, task);
}

} // verus!
