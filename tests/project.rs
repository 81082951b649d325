use miow::files::{FileMap, IndexConfig, Language};
use miow::graph::QueryBuilder;
use miow::json::JsonValue;
use miow::project::{detect_package_manager, parse_package_json, ProjectFacts, ProjectSignature};

fn facts(present: &[&str], package_json: Option<&str>, cargo_toml: Option<&str>) -> ProjectFacts {
    ProjectFacts {
        present: present.iter().map(|s| s.to_string()).collect(),
        package_json: package_json.map(|s| s.to_string()),
        cargo_toml: cargo_toml.map(|s| s.to_string()),
    }
}

#[test]
fn test_detect_package_manager() {
    assert_eq!(detect_package_manager(&facts(&["package.json"], Some("{}"), None)), Some("npm".to_string()));
    assert_eq!(detect_package_manager(&facts(&["yarn.lock", "requirements.txt"], None, None)), Some("pip".to_string()));
    assert_eq!(detect_package_manager(&facts(&[], None, None)), None);
}

#[test]
fn test_detect_nextjs() {
    let package_json = parse_package_json(r#"{"dependencies":{"next":"14.0.0"}}"#).unwrap();
    let signature = ProjectSignature::analyze_npm_package(&package_json, ProjectSignature::empty());
    assert_eq!(signature.framework, "Next.js".to_string());
}

#[test]
fn nextjs_from_package_json() {
    let pkg = JsonValue::Object(vec![(
        "dependencies".to_string(),
        JsonValue::Object(vec![("next".to_string(), JsonValue::Str("14.0.0".to_string()))]),
    )]);
    let signature = ProjectSignature::analyze_npm_package(&pkg, ProjectSignature::empty());
    assert_eq!(signature.framework, "Next.js".to_string());
    assert_eq!(signature.features, vec!["app-router".to_string()]);
    assert_eq!(signature.dependencies, vec![("next".to_string(), "14.0.0".to_string())]);
}

#[test]
fn detect_typescript_next_project() {
    let f = facts(
        &["package.json", "src/*.tsx", "next.config.js", "app", "tsconfig.json"],
        Some("{\"dependencies\": {\"tailwindcss\": \"3\", \"zod\": \"3\"}}"),
        None,
    );
    let s = ProjectSignature::detect(&f);
    assert_eq!(s.package_manager, "npm");
    assert_eq!(s.language, "typescript");
    assert_eq!(s.framework, "Next.js");
    assert_eq!(s.styling, vec!["Tailwind CSS".to_string()]);
    assert_eq!(
        s.features,
        vec![
            "TypeScript".to_string(),
            "Strict Type Checking".to_string(),
            "Server-Side Rendering".to_string(),
            "Static Site Generation".to_string(),
            "App Router".to_string(),
            "Styling: Tailwind CSS".to_string(),
        ]
    );
    assert_eq!(ProjectSignature::detect_validation_library(&s.dependencies), Some("Zod".to_string()));
    assert_eq!(s.to_description(), "Language: typescript, Framework: Next.js, Package Manager: npm");
}

#[test]
fn detect_rust_web_project() {
    let cargo = "[package]\nname = \"demo\"\n[dependencies]\naxum = \"0.7\"\nserde = { version = \"1\" }\n";
    let f = facts(&["Cargo.toml", "src/*.rs"], None, Some(cargo));
    let s = ProjectSignature::detect(&f);
    assert_eq!(s.package_manager, "cargo");
    assert_eq!(s.language, "rust");
    assert_eq!(s.framework, "Rust Web");
    assert_eq!(
        s.dependencies,
        vec![("name".to_string(), "demo".to_string()), ("axum".to_string(), "0.7".to_string())]
    );
    assert_eq!(s.dominant_language(), "rust");
    let q = s.get_question_templates();
    assert_eq!(q.len(), 3);
    assert_eq!(q[2], "What traits are implemented?");
}

#[test]
fn question_templates_for_react_with_zod() {
    let mut s = ProjectSignature::empty();
    s.language = "typescript".to_string();
    s.framework = "Next.js App Router".to_string();
    s.validation_library = Some("Zod".to_string());
    let q = s.get_question_templates();
    assert_eq!(q.len(), 5);
    assert_eq!(q[3], "What Next.js pages or API routes exist?");
    assert_eq!(q[4], "What Zod schemas are defined?");
}

#[test]
fn ui_and_auth_libraries() {
    let deps = vec![("@radix-ui".to_string(), "1".to_string()), ("firebase".to_string(), "9".to_string())];
    assert_eq!(ProjectSignature::detect_ui_library(&deps, None), Some("Radix UI".to_string()));
    assert_eq!(ProjectSignature::detect_auth_library(&deps), Some("Firebase Auth".to_string()));
    assert_eq!(ProjectSignature::detect_ui_library(&vec![], Some("Button")), Some("Custom UI (uses Button)".to_string()));
    assert_eq!(ProjectSignature::detect_ui_library(&vec![], None), None);
}

#[test]
fn languages_from_extensions() {
    assert_eq!(Language::from_extension("tsx"), Language::TSX);
    assert_eq!(Language::from_extension("md"), Language::Unknown);
    assert!(Language::Rust.is_parseable());
    assert!(!Language::CSS.is_parseable());
    let c = IndexConfig::default();
    assert_eq!(c.max_file_size, 1024 * 1024);
    assert_eq!(c.ignore_patterns.len(), 7);
}

#[test]
fn file_map_directories() {
    let mut m = FileMap::new();
    m.add_file("src/a.ts".to_string(), 10, "ts".to_string(), false);
    m.add_file("src/b.ts".to_string(), 10, "ts".to_string(), false);
    m.add_file("lib/c/d.rs".to_string(), 10, "rs".to_string(), false);
    m.add_file("top.txt".to_string(), 1, "text".to_string(), false);
    assert_eq!(m.get_directories(), vec!["src".to_string(), "lib/c".to_string(), "".to_string()]);
}

#[test]
fn query_builder_text() {
    let (q, p) = QueryBuilder::new().with_name("Button").with_kind("component").build();
    assert!(q.ends_with("WHERE s.name LIKE ? AND s.kind = ?"));
    assert!(q.starts_with("SELECT s.id, s.name"));
    assert_eq!(p, vec!["%Button%".to_string(), "component".to_string()]);
    let (q, p) = QueryBuilder::new().build();
    assert!(q.ends_with("f.id "));
    assert!(p.is_empty());
}
