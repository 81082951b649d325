use miow::question_loop::{
    collect_answers, questions_from_reply, merge_search_results, CriticalQuestion, Priority, QuestionLoop, QuestionResult, SearchStep,
    SymbolMatch, VerifyStep,
};

fn sym(name: &str, path: &str) -> SymbolMatch {
    SymbolMatch { name: name.to_string(), kind: "component".to_string(), file_path: path.to_string() }
}

#[test]
fn test_question_creation() {
    let q = CriticalQuestion {
        question: "Is there a User struct?".to_string(),
        search_query: "User".to_string(),
        expected_type: "struct".to_string(),
        priority: Priority::Critical,
    };

    assert_eq!(q.priority, Priority::Critical);
}

#[test]
fn button_found_on_third_attempt() {
    let ql = QuestionLoop::new();
    let mut q = CriticalQuestion {
        question: "Is there a Button component?".to_string(),
        search_query: "Button".to_string(),
        expected_type: "component".to_string(),
        priority: Priority::Critical,
    };
    let mut outcome = None;
    for attempt in 0..ql.max_retries {
        let results = if attempt == 2 {
            merge_search_results(vec![], &vec![sym("Button", "src/Button.tsx")])
        } else {
            merge_search_results(vec![], &vec![])
        };
        match ql.after_search(attempt, results.len()) {
            SearchStep::Reformulate => {
                q = ql.reformulate_from_reply(q, "no json here");
                continue;
            }
            SearchStep::Finish(r) => {
                outcome = Some(r);
                break;
            }
            SearchStep::Verify => {}
        }
        let v = ql.verification_from_reply("{\"is_correct\": true, \"reason\": \"matches\"}", !results.is_empty());
        match ql.after_verification(attempt, &q, results, &v) {
            VerifyStep::Finish(r) => {
                outcome = Some(r);
                break;
            }
            VerifyStep::Reformulate => {}
        }
    }
    match outcome {
        Some(QuestionResult::Found(a)) => {
            assert_eq!(a.len(), 1);
            assert_eq!(a[0].confidence_percent, 100);
            assert_eq!(a[0].symbols.len(), 1);
            assert_eq!(a[0].question, "Is there a Button component?");
        }
        _ => panic!("expected Found"),
    }
    assert_eq!(q.search_query, "component component Button");
}

#[test]
fn heuristic_widens_user() {
    let ql = QuestionLoop::new();
    let q = CriticalQuestion {
        question: "Is there a User struct?".to_string(),
        search_query: "User struct User".to_string(),
        expected_type: "type".to_string(),
        priority: Priority::High,
    };
    let q = ql.reformulate_from_reply(q, "garbage");
    assert_eq!(q.search_query, "UserModel struct UserModel");
    let q = ql.reformulate_from_reply(q, "```json\n{\"new_query\": \"Account\"}\n```");
    assert_eq!(q.search_query, "Account");
}

#[test]
fn verification_fails_open() {
    let ql = QuestionLoop::new();
    let v = ql.verification_from_reply("not json", true);
    assert!(v.is_correct);
    assert_eq!(v.reason, "Failed to parse verification response");
    let v = ql.verification_from_reply("not json", false);
    assert!(!v.is_correct);
    let v = ql.verification_from_reply("{\"is_correct\": false, \"reason\": \"no\", \"suggestion\": \"Btn\"}", true);
    assert!(!v.is_correct);
    assert_eq!(v.suggestion, Some("Btn".to_string()));
}

#[test]
fn last_attempt_partial_or_not_found() {
    let ql = QuestionLoop::new();
    let q = CriticalQuestion {
        question: "q".to_string(),
        search_query: "x".to_string(),
        expected_type: "type".to_string(),
        priority: Priority::Medium,
    };
    let v = ql.verification_from_reply("{\"is_correct\": false, \"reason\": \"no\"}", true);
    match ql.after_verification(2, &q, vec![sym("A", "a.rs")], &v) {
        VerifyStep::Finish(QuestionResult::PartiallyFound(a)) => assert_eq!(a[0].confidence_percent, 50),
        _ => panic!("expected PartiallyFound"),
    }
    assert!(matches!(ql.after_verification(0, &q, vec![sym("A", "a.rs")], &v), VerifyStep::Reformulate));
    assert!(matches!(ql.after_search(2, 0), SearchStep::Finish(QuestionResult::NotFound)));
}

#[test]
fn merge_prefers_similarity_results() {
    let merged = merge_search_results(
        vec![sym("A", "a.rs"), sym("B", "b.rs"), sym("A", "a.rs")],
        &vec![sym("A", "a.rs"), sym("A", "other.rs"), sym("C", "c.rs"), sym("C", "c.rs")],
    );
    let names: Vec<(String, String)> = merged.iter().map(|m| (m.name.clone(), m.file_path.clone())).collect();
    assert_eq!(
        names,
        vec![
            ("A".to_string(), "a.rs".to_string()),
            ("B".to_string(), "b.rs".to_string()),
            ("A".to_string(), "other.rs".to_string()),
            ("C".to_string(), "c.rs".to_string()),
        ]
    );
}

#[test]
fn not_found_questions_add_nothing() {
    let ql = QuestionLoop::new();
    let q = CriticalQuestion {
        question: "q".to_string(),
        search_query: "x".to_string(),
        expected_type: "type".to_string(),
        priority: Priority::Critical,
    };
    let v = ql.verification_from_reply("{\"is_correct\": true, \"reason\": \"ok\"}", true);
    let found = match ql.after_verification(0, &q, vec![sym("A", "a.rs")], &v) {
        VerifyStep::Finish(r) => r,
        VerifyStep::Reformulate => panic!("expected Finish"),
    };
    let answers = collect_answers(vec![QuestionResult::NotFound, found, QuestionResult::NotFound]);
    assert_eq!(answers.len(), 1);
}

#[test]
fn questions_decoded_with_defaults() {
    let reply = "```json\n[{\"question\": \"Is there a Button?\", \"search_query\": \"Button\", \"priority\": \"critical\"}, {\"question\": \"\", \"search_query\": \"x\"}, 7, {\"question\": \"Auth?\", \"search_query\": \"auth\", \"expected_type\": \"function\", \"priority\": \"HIGH\"}]\n```";
    let qs = match questions_from_reply(reply) {
        Ok(qs) => qs,
        Err(_) => panic!("expected questions"),
    };
    assert_eq!(qs.len(), 2);
    assert_eq!(qs[0].expected_type, "unknown");
    assert_eq!(qs[0].priority, Priority::Critical);
    assert_eq!(qs[1].expected_type, "function");
    assert_eq!(qs[1].priority, Priority::Medium);
    assert!(questions_from_reply("{\"question\": \"a\"}").is_err());
}

#[test]
fn verification_prompt_shows_five_results() {
    let q = CriticalQuestion {
        question: "Is there a Button?".to_string(),
        search_query: "Button".to_string(),
        expected_type: "component".to_string(),
        priority: Priority::High,
    };
    let results: Vec<SymbolMatch> = (0..7).map(|i| sym(&format!("B{}", i), "b.tsx")).collect();
    let p = miow::question_loop::verification_prompt(&q, &results);
    assert!(p.starts_with("Question: Is there a Button?\nExpected type: component\nSearch query used: Button\n"));
    assert!(p.contains("- B4 (component) in b.tsx\n\nTask:"));
    assert!(!p.contains("B5"));
}
