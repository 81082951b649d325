use miow::style::StyleAnalyzer;

#[test]
fn test_pattern_detection_react() {
    let analyzer = StyleAnalyzer::new();
    let samples = vec![r#"
            const Component = () => {
                const [state, setState] = useState(0);
                return <div>{state}</div>;
            }
            "#
    .to_string()];

    let analysis = analyzer.analyze_patterns(&samples, "TypeScript");

    assert!(analysis.patterns.contains(&"Hooks-based React".to_string()));
    assert!(analysis.patterns.contains(&"Functional programming".to_string()));
}

#[test]
fn test_pattern_detection_rust() {
    let analyzer = StyleAnalyzer::new();
    let samples = vec![r#"
            pub fn process() -> Result<String, Error> {
                Ok("success".to_string())
            }
            "#
    .to_string()];

    let analysis = analyzer.analyze_patterns(&samples, "Rust");

    assert!(analysis.error_handling.contains(&"Result<T, E>".to_string()));
}

#[test]
fn naming_is_sorted_by_bytes() {
    let analyzer = StyleAnalyzer::new();
    let samples = vec!["const a_b = 1; class X {}".to_string()];
    let analysis = analyzer.analyze_patterns(&samples, "Other");
    assert_eq!(
        analysis.naming_convention,
        vec!["PascalCase".to_string(), "camelCase".to_string(), "snake_case".to_string()]
    );
    assert!(analysis.patterns.is_empty());
}

#[test]
fn keeps_three_samples() {
    let analyzer = StyleAnalyzer::new();
    let samples: Vec<String> = (0..5).map(|i| format!("s{}", i)).collect();
    let analysis = analyzer.analyze_patterns(&samples, "Python");
    assert_eq!(analysis.code_samples, vec!["s0".to_string(), "s1".to_string(), "s2".to_string()]);
}

#[test]
fn reply_lists_keep_strings_only() {
    let analyzer = StyleAnalyzer::new();
    let reply = "```json\n{\"naming_convention\": [\"snake_case\", 3], \"patterns\": [\"Trait-based\"]}\n```";
    let a = analyzer.analysis_from_reply(reply, &[], "Rust");
    assert_eq!(a.naming_convention, vec!["snake_case".to_string()]);
    assert_eq!(a.patterns, vec!["Trait-based".to_string()]);
    assert!(a.error_handling.is_empty());
    let tags = analyzer.to_tags(&a);
    assert_eq!(tags, vec!["snake_case".to_string(), "Trait-based".to_string()]);
}
