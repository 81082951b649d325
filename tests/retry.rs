use miow::resilient::{RetryDecision, RetryPolicy};
use miow::router::GeminiRouterAgent;

#[test]
fn backoff_doubles_with_jitter() {
    let p = RetryPolicy::new();
    assert!(matches!(p.after_failure(1, 0), RetryDecision::Retry(2000)));
    assert!(matches!(p.after_failure(3, 250), RetryDecision::Retry(8250)));
    assert!(matches!(p.after_failure(5, 999), RetryDecision::Retry(32999)));
    assert!(matches!(p.after_failure(6, 0), RetryDecision::GiveUp));
}

#[test]
fn backoff_saturates() {
    let p = RetryPolicy { max_retries: 100, base_delay_ms: u64::MAX / 2 };
    assert!(matches!(p.after_failure(3, 1), RetryDecision::Retry(u64::MAX)));
}

#[test]
fn workers_description_lists_registry() {
    let agent = GeminiRouterAgent::new();
    let d = agent.get_available_workers_description();
    assert_eq!(d.lines().count(), 15);
    assert!(d.starts_with("- stack_detector: Analyze file tree"));
}
