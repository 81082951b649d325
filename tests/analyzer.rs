use miow::analyzer::{ContextAnalyzer, PromptIntent};

#[test]
fn test_extract_keywords() {
    let analyzer = ContextAnalyzer::new();
    let prompt = "Create a login page with email and password fields";
    let analyzed = analyzer.analyze_prompt(prompt);

    assert!(analyzed.keywords.contains(&"login".to_string()));
    assert!(analyzed.keywords.contains(&"page".to_string()));
    assert!(analyzed.keywords.contains(&"email".to_string()));
    assert!(analyzed.keywords.contains(&"password".to_string()));
}

#[test]
fn test_infer_intent() {
    let analyzer = ContextAnalyzer::new();

    let prompt1 = "Create a new Button component";
    assert_eq!(analyzer.analyze_prompt(prompt1).intent, PromptIntent::CreateComponent);

    let prompt2 = "Fix the authentication bug";
    assert_eq!(analyzer.analyze_prompt(prompt2).intent, PromptIntent::Fix);
}

#[test]
fn keywords_drop_stop_words_and_short_words() {
    let analyzer = ContextAnalyzer::new();
    let kws = analyzer.extract_keywords("Add the UserProfile to my DB now, please");
    assert_eq!(kws, vec!["userprofile".to_string(), "please".to_string()]);
}

#[test]
fn entities_are_sorted_and_unique() {
    let analyzer = ContextAnalyzer::new();
    let es = analyzer.extract_entities("Use Button and (Modal) with useState Button");
    assert_eq!(
        es,
        vec![
            "(Modal)".to_string(),
            "Button".to_string(),
            "Modal".to_string(),
            "Use".to_string(),
            "useState".to_string()
        ]
    );
}

#[test]
fn intent_refactor_and_unknown() {
    let analyzer = ContextAnalyzer::new();
    assert_eq!(analyzer.infer_intent("Please optimize the loop"), PromptIntent::Refactor);
    assert_eq!(analyzer.infer_intent("Explain this"), PromptIntent::Unknown);
    assert_eq!(analyzer.infer_intent("Make a helper"), PromptIntent::CreateFunction);
}
