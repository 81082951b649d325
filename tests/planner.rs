use miow::registry::{Priority, PromptCategory, PromptRegistry, SpecializedPrompt};
use miow::router::{GeminiRouterAgent, SearchPlan, SearchQuery, WorkerPlan};

fn spec(key: &str, deps: &[&str]) -> SpecializedPrompt {
    SpecializedPrompt {
        key: key.to_string(),
        description: format!("{} worker", key),
        template: "Task: {user_prompt} on {project_info}".to_string(),
        category: PromptCategory::Frontend,
        priority: Priority::High,
        dependencies: deps.iter().map(|d| d.to_string()).collect(),
        provides_context: vec![],
    }
}

fn ids(v: &[&str]) -> Vec<String> {
    v.iter().map(|s| s.to_string()).collect()
}

fn pos(order: &[String], id: &str) -> usize {
    order.iter().position(|x| x == id).unwrap()
}

#[test]
fn dependencies_come_first() {
    let mut reg = PromptRegistry::empty();
    reg.insert_prompt(spec("A", &[]));
    reg.insert_prompt(spec("B", &["A"]));
    reg.insert_prompt(spec("C", &["A", "B"]));
    let agent = GeminiRouterAgent::with_registry(reg);
    let order = agent.build_execution_plan(&ids(&["C", "B", "A"]));
    assert_eq!(order.len(), 3);
    assert!(pos(&order, "A") < pos(&order, "B"));
    assert!(pos(&order, "B") < pos(&order, "C"));
    assert_eq!(order, ids(&["A", "B", "C"]));
}

#[test]
fn cycle_terminates_with_permutation() {
    let mut reg = PromptRegistry::empty();
    reg.insert_prompt(spec("A", &["B"]));
    reg.insert_prompt(spec("B", &["A"]));
    let agent = GeminiRouterAgent::with_registry(reg);
    let order = agent.build_execution_plan(&ids(&["A", "B"]));
    assert_eq!(order, ids(&["A", "B"]));
}

#[test]
fn unknown_worker_scheduled_once() {
    let mut reg = PromptRegistry::empty();
    reg.insert_prompt(spec("A", &[]));
    reg.insert_prompt(spec("B", &["A"]));
    let agent = GeminiRouterAgent::with_registry(reg);
    let order = agent.build_execution_plan(&ids(&["B", "X", "A"]));
    assert_eq!(order.iter().filter(|x| x.as_str() == "X").count(), 1);
    assert_eq!(order, ids(&["X", "A", "B"]));
}

#[test]
fn missing_dependency_goes_last() {
    let mut reg = PromptRegistry::empty();
    reg.insert_prompt(spec("A", &["Z"]));
    reg.insert_prompt(spec("B", &[]));
    let agent = GeminiRouterAgent::with_registry(reg);
    assert_eq!(agent.build_execution_plan(&ids(&["A", "B"])), ids(&["B", "A"]));
}

#[test]
fn builtin_catalog_orders_scanners() {
    let agent = GeminiRouterAgent::new();
    let order = agent.build_execution_plan(&ids(&["test_scanner", "frontend_scanner", "backend_scanner", "stack_detector"]));
    assert_eq!(order, ids(&["stack_detector", "frontend_scanner", "backend_scanner", "test_scanner"]));
}

#[test]
fn unparseable_reply_gives_fallback_plan() {
    let agent = GeminiRouterAgent::new();
    let rec = agent.registry.get_recommended_prompts("feature");
    let plan = agent.plan_from_reply("Sorry, I cannot help with that.", "add a login form", &rec);
    assert_eq!(plan.global_intent, "fallback_plan");
    assert_eq!(plan.search_queries.len(), 1);
    assert_eq!(plan.search_queries[0].query, "add a login form");
    assert_eq!(plan.search_queries[0].kind, Some("any".to_string()));
    assert!(plan.workers.len() <= 3);
    let worker_ids: Vec<String> = plan.workers.iter().map(|w| w.worker_id.clone()).collect();
    assert_eq!(worker_ids, ids(&["frontend_scanner", "backend_scanner", "data_scanner"]));
    assert_eq!(plan.execution_plan, worker_ids);
}

#[test]
fn empty_plan_also_falls_back() {
    let agent = GeminiRouterAgent::new();
    let rec = ids(&["nope", "auth_scanner"]);
    let plan = agent.plan_from_reply("```json\n{\"global_intent\": \"  \"}\n```", "task", &rec);
    assert_eq!(plan.global_intent, "fallback_plan");
    assert_eq!(plan.workers.len(), 1);
    assert_eq!(plan.workers[0].worker_id, "auth_scanner");
}

#[test]
fn decoded_plan_is_scheduled() {
    let agent = GeminiRouterAgent::new();
    let reply = "```json\n{\"global_intent\": \"add_auth\", \"search_queries\": [{\"query\": \" login \", \"kind\": null}], \"workers\": [{\"worker_id\": \"frontend_scanner\", \"description\": \"ui\", \"queries\": [{\"query\": \"form\", \"target_paths\": [\"src\"]}]}, {\"worker_id\": \"stack_detector\", \"description\": \"stack\"}]}\n```";
    let plan = agent.plan_from_reply(reply, "task", &[]);
    assert_eq!(plan.global_intent, "add_auth");
    assert_eq!(plan.search_queries[0].kind, None);
    assert_eq!(plan.workers[0].queries[0].target_paths, ids(&["src"]));
    assert_eq!(plan.execution_plan, ids(&["stack_detector", "frontend_scanner"]));
    assert_eq!(plan.all_query_strings(), ids(&["login", "form"]));
    assert!(!plan.is_empty());
}

#[test]
fn task_type_defaults_to_feature() {
    let agent = GeminiRouterAgent::new();
    assert_eq!(agent.task_type_from_reply("```json\n{\"task_type\": \"bugfix\"}\n```"), "bugfix");
    assert_eq!(agent.task_type_from_reply("{\"complexity\": \"low\"}"), "feature");
    assert_eq!(agent.task_type_from_reply("oops"), "feature");
}

#[test]
fn recommended_workers_by_task_type() {
    let reg = PromptRegistry::new();
    assert_eq!(
        reg.get_recommended_prompts("security"),
        ids(&["security_auditor", "auth_scanner", "config_scanner"])
    );
    assert_eq!(
        reg.get_recommended_prompts("whatever"),
        ids(&["stack_detector", "frontend_scanner", "backend_scanner"])
    );
}

#[test]
fn registry_lookups() {
    let reg = PromptRegistry::new();
    assert_eq!(reg.get_all_prompts().len(), 15);
    assert_eq!(reg.get_prompt("security_auditor").unwrap().dependencies, ids(&["auth_scanner"]));
    assert!(reg.get_prompt("missing").is_none());
    assert_eq!(reg.get_prompts_by_category(&PromptCategory::Security).len(), 2);
    assert_eq!(reg.get_prompts_by_priority(&Priority::Critical).len(), 1);
}

#[test]
fn insert_replaces_same_key() {
    let mut reg = PromptRegistry::empty();
    reg.insert_prompt(spec("A", &[]));
    reg.insert_prompt(spec("A", &["B"]));
    assert_eq!(reg.get_all_prompts().len(), 1);
    assert_eq!(reg.get_prompt("A").unwrap().dependencies, ids(&["B"]));
}

#[test]
fn empty_plan_detection() {
    let plan = SearchPlan {
        global_intent: " ".to_string(),
        search_queries: vec![],
        workers: vec![WorkerPlan { worker_id: "w".to_string(), description: String::new(), queries: vec![SearchQuery { query: "  ".to_string(), kind: None, target_paths: vec![] }] }],
        execution_plan: vec![],
    };
    assert!(!plan.is_empty());
    assert!(plan.all_query_strings().is_empty());
}
