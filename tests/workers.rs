use miow::registry::PromptRegistry;
use miow::text::{replace_all, strip_code_fences};
use miow::workers::{parse_llm_response, to_decimal, GeminiWorkerAgent, MiowError};

#[test]
fn array_reply_becomes_chunks() {
    let reply = "[{\"definition\": \"type A = 1\", \"path\": \"a.ts\", \"type\": \"type\"}, 5, {\"content\": \"fn b()\", \"language\": \"rust\", \"description\": \"helper\"}]";
    let chunks = parse_llm_response("data_scanner", reply);
    assert_eq!(chunks.len(), 2);
    assert_eq!(chunks[0].id, "data_scanner-0");
    assert_eq!(chunks[0].content, "type A = 1");
    assert_eq!(chunks[0].file_path, "a.ts");
    assert_eq!(chunks[0].kind, "type");
    assert_eq!(chunks[0].language, "unknown");
    assert_eq!(chunks[1].id, "data_scanner-1");
    assert_eq!(chunks[1].language, "rust");
    assert_eq!(chunks[1].kind, "unknown");
    assert_eq!(chunks[1].metadata.description, "helper");
    assert!(!chunks[1].metadata.fallback);
}

#[test]
fn other_reply_becomes_fallback_chunk() {
    let chunks = parse_llm_response("ui", "free text");
    assert_eq!(chunks.len(), 1);
    assert_eq!(chunks[0].id, "ui-fallback");
    assert_eq!(chunks[0].file_path, "ui_analysis.txt");
    assert_eq!(chunks[0].content, "free text");
    assert!(chunks[0].metadata.fallback);
}

#[test]
fn unknown_worker_is_config_error() {
    let agent = GeminiWorkerAgent::new(PromptRegistry::new());
    match agent.worker_messages("nope", "t", "p") {
        Err(MiowError::Config(m)) => assert_eq!(m, "Unknown prompt key: nope"),
        _ => panic!("expected a configuration error"),
    }
}

#[test]
fn worker_prompt_fills_placeholders() {
    let agent = GeminiWorkerAgent::new_with_registry();
    let (system, user) = match agent.worker_messages("task_classifier", "add login", "Language: rust") {
        Ok(m) => m,
        Err(_) => panic!("known worker"),
    };
    assert!(system.starts_with("You are a Classify"));
    assert!(user.contains("User request: add login"));
    assert!(user.contains("Project stack: Language: rust"));
    assert!(!user.contains("{user_prompt}"));
    let r = agent.result_from_reply("task_classifier", "[]");
    assert_eq!(r.summary, "Executed task_classifier worker");
    assert_eq!(r.confidence_percent, 80);
    assert!(r.chunks.is_empty());
}

#[test]
fn decimal_and_replace() {
    assert_eq!(to_decimal(0), "0");
    assert_eq!(to_decimal(1203), "1203");
    assert_eq!(replace_all("aXbXX", "X", "yz"), "ayzbyzyz");
    assert_eq!(strip_code_fences("  ```json\n{}\n```  "), "{}");
}
