use miow::auditor::{truncate_preview, GatheredContext, GeminiContextAuditor};
use miow::context::{is_test_file, ContextData, ContextItem, DeduplicationEngine, SmartPruner};

fn item(name: &str, path: &str, content: &str) -> ContextItem {
    ContextItem { name: name.to_string(), kind: "function".to_string(), file_path: path.to_string(), content: content.to_string() }
}

fn names(v: &[ContextItem]) -> Vec<String> {
    v.iter().map(|i| i.name.clone()).collect()
}

fn sample() -> ContextData {
    let mut c = ContextData::new();
    c.relevant_symbols = vec![item("a", "x.ts", "1"), item("a", "x.ts", "2"), item("a", "y.ts", "3"), item("b", "x.ts", "4")];
    c.similar_symbols = vec![item("a", "z.ts", "5"), item("c", "z.ts", "6"), item("c", "z.ts", "6")];
    c.types = vec![item("T", "", "def"), item("T", "", "def"), item("T", "", "other")];
    c.constants = vec![item("K", "", "1"), item("K", "", "1")];
    c.schemas = vec![item("S", "", "s"), item("S", "", "s")];
    c
}

#[test]
fn dedup_removes_repeats() {
    let mut c = sample();
    DeduplicationEngine::deduplicate(&mut c);
    assert_eq!(names(&c.relevant_symbols), vec!["a", "a", "b"]);
    assert_eq!(c.relevant_symbols[1].file_path, "y.ts");
    assert_eq!(names(&c.similar_symbols), vec!["c"]);
    assert_eq!(c.types.len(), 2);
    assert_eq!(c.constants.len(), 1);
    assert_eq!(c.schemas.len(), 1);
}

#[test]
fn dedup_twice_is_dedup_once() {
    let mut once = sample();
    DeduplicationEngine::deduplicate(&mut once);
    let mut twice = sample();
    DeduplicationEngine::deduplicate(&mut twice);
    DeduplicationEngine::deduplicate(&mut twice);
    assert_eq!(names(&once.relevant_symbols), names(&twice.relevant_symbols));
    assert_eq!(names(&once.similar_symbols), names(&twice.similar_symbols));
    assert_eq!(once.types.len(), twice.types.len());
}

#[test]
fn usage_is_bytes_over_four() {
    let mut c = ContextData::new();
    c.relevant_symbols = vec![item("a", "a.ts", "123456789")];
    c.types = vec![item("T", "", "ééé")];
    assert_eq!(SmartPruner::new(0).calculate_usage(&c), 3);
}

#[test]
fn usage_counts_characters() {
    let mut c = ContextData::new();
    c.relevant_symbols = vec![item("a", "a.ts", "éé")];
    assert_eq!(SmartPruner::new(0).calculate_usage(&c), 0);
    assert!(SmartPruner::new(0).within_budget(&c));
}

#[test]
fn similar_bucket_is_deduplicated_by_name_and_path() {
    let mut c = ContextData::new();
    c.similar_symbols = vec![item("s", "a.ts", "1"), item("s", "a.ts", "2"), item("s", "b.ts", "3")];
    DeduplicationEngine::deduplicate(&mut c);
    assert_eq!(c.similar_symbols.len(), 2);
    assert_eq!(c.similar_symbols[0].content, "1");
}

#[test]
fn audit_keeps_an_item_once() {
    let auditor = GeminiContextAuditor::new();
    let mut items = many(9);
    auditor.audit_category(&mut items, "{\"keep_indices\": [0, 0, 3, 0]}");
    assert_eq!(names(&items), vec!["i0", "i3"]);
}

#[test]
fn prune_within_budget_changes_nothing() {
    let mut c = sample();
    SmartPruner::new(100).prune(&mut c);
    assert_eq!(c.relevant_symbols.len(), 4);
}

#[test]
fn prune_drops_tests_first() {
    let mut c = ContextData::new();
    c.relevant_symbols = vec![item("a", "a.test.ts", &"x".repeat(40)), item("b", "b.ts", "yyyy")];
    SmartPruner::new(5).prune(&mut c);
    assert_eq!(names(&c.relevant_symbols), vec!["b"]);
}

#[test]
fn prune_converges_to_budget_or_empty() {
    let mut c = ContextData::new();
    c.relevant_symbols = (0..15).map(|i| item(&format!("r{}", i), "src/a.ts", &"x".repeat(40))).collect();
    c.similar_symbols = vec![item("s", "src/s.ts", &"x".repeat(40))];
    c.constants = vec![item("k", "", &"x".repeat(40))];
    let pruner = SmartPruner::new(25);
    pruner.prune(&mut c);
    assert!(pruner.calculate_usage(&c) <= 25);
    assert!(c.similar_symbols.is_empty());
    assert_eq!(c.relevant_symbols.len(), 2);

    let mut d = ContextData::new();
    d.relevant_symbols = vec![item("r", "a.ts", &"x".repeat(400))];
    d.types = vec![item("T", "", &"x".repeat(400))];
    SmartPruner::new(10).prune(&mut d);
    assert!(d.relevant_symbols.is_empty());
    assert_eq!(d.types.len(), 1);
}

#[test]
fn test_file_heuristic() {
    assert!(is_test_file("src/a.spec.ts"));
    assert!(is_test_file("src/__tests__/x.ts"));
    assert!(is_test_file("src/mocks/api.ts"));
    assert!(!is_test_file("src/testing.ts"));
}

fn many(n: usize) -> Vec<ContextItem> {
    (0..n).map(|i| item(&format!("i{}", i), "a.ts", "c")).collect()
}

#[test]
fn audit_fails_open() {
    let auditor = GeminiContextAuditor::new();
    let mut items = many(10);
    auditor.audit_category(&mut items, "this is not json");
    assert_eq!(names(&items), names(&many(10)));
    auditor.audit_category(&mut items, "{\"keep_indices\": []}");
    assert_eq!(names(&items), names(&many(10)));
    auditor.audit_category(&mut items, "{\"keep_indices\": [42]}");
    assert_eq!(items.len(), 10);
}

#[test]
fn audit_keeps_listed_indices() {
    let auditor = GeminiContextAuditor::new();
    let mut items = many(10);
    auditor.audit_category(&mut items, "```json\n{\"keep_indices\": [7, 2, 99]}\n```");
    assert_eq!(names(&items), vec!["i7", "i2"]);
    let mut small = many(8);
    auditor.audit_category(&mut small, "{\"keep_indices\": [0]}");
    assert_eq!(small.len(), 8);
}

#[test]
fn audit_gate() {
    let auditor = GeminiContextAuditor::new();
    let g = GatheredContext { components: many(5), helpers: many(4), types: many(3), schemas: many(0) };
    assert!(!auditor.needs_audit(&g));
    let g = GatheredContext { components: many(5), helpers: many(4), types: many(3), schemas: many(1) };
    assert!(auditor.needs_audit(&g));
    assert!(auditor.category_needs_audit(&many(9)));
}

#[test]
fn preview_truncates_with_ellipsis() {
    assert_eq!(truncate_preview("abcdef", 3), "abc…");
    assert_eq!(truncate_preview("abc", 3), "abc");
}
