use vstd::prelude::*;

use crate::text::same_text;

verus! {

/// A specialized prompt with its key, description and template.
pub struct SpecializedPrompt {
    pub key: String,
    pub description: String,
    pub template: String,
    pub category: PromptCategory,
    pub priority: Priority,
    /// Keys of the prompts that must run before this one.
    pub dependencies: Vec<String>,
    /// Context keys this prompt provides (e.g. "framework", "language").
    pub provides_context: Vec<String>,
}

#[derive(Debug, Clone, Copy, PartialEq, Eq, Structural)]
pub enum PromptCategory {
    StackDetection,
    TaskClassification,
    Frontend,
    Backend,
    Data,
    Security,
    Testing,
    Infrastructure,
    ErrorAnalysis,
    Documentation,
}

#[derive(Debug, Clone, Copy, PartialEq, Eq, Structural)]
pub enum Priority {
    Critical,
    High,
    Medium,
    Low,
}

/// The views of a sequence of strings.
pub open spec fn views(v: Seq<String>) -> Seq<Seq<char>> {
    v.map_values(|s: String| s@)
}

/// The first prompt of `ps` whose key is `key`.
pub open spec fn lookup(ps: Seq<SpecializedPrompt>, key: Seq<char>) -> Option<SpecializedPrompt>
    decreases ps.len(),
{
    if ps.len() == 0 {
        None
    } else if ps[0].key@ == key {
        Some(ps[0])
    } else {
        lookup(ps.drop_first(), key)
    }
}

/// The prompts of `ps` in `category`, in order.
pub open spec fn in_category(ps: Seq<SpecializedPrompt>, category: PromptCategory) -> Seq<SpecializedPrompt>
    decreases ps.len(),
{
    if ps.len() == 0 {
        seq![]
    } else if ps.last().category == category {
        in_category(ps.drop_last(), category).push(ps.last())
    } else {
        in_category(ps.drop_last(), category)
    }
}

/// The prompts of `ps` with `priority`, in order.
pub open spec fn with_priority(ps: Seq<SpecializedPrompt>, priority: Priority) -> Seq<SpecializedPrompt>
    decreases ps.len(),
{
    if ps.len() == 0 {
        seq![]
    } else if ps.last().priority == priority {
        with_priority(ps.drop_last(), priority).push(ps.last())
    } else {
        with_priority(ps.drop_last(), priority)
    }
}

/// The worker keys recommended for each task type.
pub open spec fn recommended_for(task_type: Seq<char>) -> Seq<Seq<char>> {
    if task_type == "feature"@ {
        seq!["frontend_scanner"@, "backend_scanner"@, "data_scanner"@, "api_scanner"@]
    } else if task_type == "bugfix"@ {
        seq!["error_analyzer"@, "test_scanner"@, "frontend_scanner"@, "backend_scanner"@]
    } else if task_type == "refactor"@ {
        seq!["refactor_advisor"@, "dependency_analyzer"@, "performance_analyzer"@]
    } else if task_type == "explanation"@ {
        seq!["documentation_scanner"@, "frontend_scanner"@, "data_scanner"@]
    } else if task_type == "security"@ {
        seq!["security_auditor"@, "auth_scanner"@, "config_scanner"@]
    } else {
        seq!["stack_detector"@, "frontend_scanner"@, "backend_scanner"@]
    }
}

/// The declared dependencies of each worker of the built-in catalog; `None` for a key
/// the catalog does not hold.
pub open spec fn builtin_dependencies(key: Seq<char>) -> Option<Seq<Seq<char>>> {
    if key == "stack_detector"@ || key == "task_classifier"@ || key == "auth_scanner"@ || key == "error_analyzer"@
        || key == "config_scanner"@ || key == "documentation_scanner"@ {
        Some(seq![])
    } else if key == "frontend_scanner"@ || key == "backend_scanner"@ || key == "data_scanner"@ || key
        == "api_scanner"@ {
        Some(seq!["stack_detector"@])
    } else if key == "test_scanner"@ || key == "dependency_analyzer"@ || key == "refactor_advisor"@ {
        Some(seq!["frontend_scanner"@, "backend_scanner"@])
    } else if key == "security_auditor"@ {
        Some(seq!["auth_scanner"@])
    } else if key == "performance_analyzer"@ {
        Some(seq!["backend_scanner"@])
    } else {
        None
    }
}

/// The declared dependencies of the prompt registered under `key`.
pub open spec fn registered_dependencies(reg: PromptRegistry, key: Seq<char>) -> Option<Seq<Seq<char>>> {
    match reg.spec_get(key) {
        Some(p) => Some(views(p.dependencies@)),
        None => None,
    }
}

/// The description and provided context keys of each worker of the built-in catalog;
/// `None` for a key the catalog does not hold.
pub open spec fn builtin_profile(key: Seq<char>) -> Option<(Seq<char>, Seq<Seq<char>>)> {
    if key == "stack_detector"@ {
        Some(("Analyze file tree and configuration files to detect programming language, framework, and architecture"@, seq!["language"@, "framework"@, "architecture"@]))
    } else if key == "task_classifier"@ {
        Some(("Classify the user's request into categories like feature, bugfix, refactor, explanation"@, seq!["task_type"@, "complexity"@, "domains"@]))
    } else if key == "frontend_scanner"@ {
        Some(("Find UI components, props, styling systems, and frontend patterns"@, seq!["ui_components"@, "styling_system"@]))
    } else if key == "backend_scanner"@ {
        Some(("Find API routes, controllers, database models, and backend patterns"@, seq!["api_routes"@, "database_models"@]))
    } else if key == "data_scanner"@ {
        Some(("Find type definitions, interfaces, database schemas, and data models"@, seq!["type_definitions"@, "validation_schemas"@]))
    } else if key == "auth_scanner"@ {
        Some(("Find authentication, authorization, and security-related code"@, seq!["auth_patterns"@, "security_middleware"@]))
    } else if key == "api_scanner"@ {
        Some(("Find API endpoints, HTTP handlers, and external service integrations"@, seq!["api_endpoints"@, "external_integrations"@]))
    } else if key == "test_scanner"@ {
        Some(("Find unit tests, integration tests, and testing utilities"@, seq!["test_files"@, "test_utilities"@]))
    } else if key == "error_analyzer"@ {
        Some(("Analyze error logs and find the files causing issues"@, seq!["error_locations"@, "error_patterns"@]))
    } else if key == "config_scanner"@ {
        Some(("Find configuration files, environment variables, and deployment settings"@, seq!["config_files"@, "environment_vars"@]))
    } else if key == "dependency_analyzer"@ {
        Some(("Analyze import relationships and dependency chains"@, seq!["dependency_graph"@, "import_chains"@]))
    } else if key == "security_auditor"@ {
        Some(("Check for security vulnerabilities and authentication patterns"@, seq!["security_issues"@, "security_recommendations"@]))
    } else if key == "performance_analyzer"@ {
        Some(("Analyze code for performance bottlenecks and optimization opportunities"@, seq!["performance_bottlenecks"@, "optimization_suggestions"@]))
    } else if key == "documentation_scanner"@ {
        Some(("Find documentation, READMEs, and code comments"@, seq!["documentation"@, "code_comments"@]))
    } else if key == "refactor_advisor"@ {
        Some(("Suggest refactoring opportunities and code improvements"@, seq!["refactoring_suggestions"@, "code_improvements"@]))
    } else {
        None
    }
}

/// The description and provided context keys of the prompt registered under `key`.
pub open spec fn registered_profile(reg: PromptRegistry, key: Seq<char>) -> Option<(Seq<char>, Seq<Seq<char>>)> {
    match reg.spec_get(key) {
        Some(p) => Some((p.description@, views(p.provides_context@))),
        None => None,
    }
}

/// Registry of the specialized prompts, in the order they were added.
pub struct PromptRegistry {
    prompts: Vec<SpecializedPrompt>,
}

impl PromptRegistry {
    /// The prompts held, in the order they were added.
    pub closed spec fn entries(&self) -> Seq<SpecializedPrompt> {
        self.prompts@
    }

    /// No two prompts share a key.
    pub open spec fn wf(&self) -> bool {
        forall|i: int, j: int|
            0 <= i < j < self.entries().len() ==> self.entries()[i].key@ != self.entries()[j].key@
    }

    /// The prompt registered under `key`.
    pub open spec fn spec_get(&self, key: Seq<char>) -> Option<SpecializedPrompt> {
        lookup(self.entries(), key)
    }

    /// An empty registry.
    pub fn empty() -> (r: Self)
        ensures
            r.wf(),
            r.entries().len() == 0,
            forall|k: Seq<char>| r.spec_get(k) is None,
    {
        PromptRegistry { prompts: Vec::new() }
    }

    /// Adds `prompt`, replacing the prompt that had its key, if any.
    pub fn insert_prompt(&mut self, prompt: SpecializedPrompt)
        requires
            old(self).wf(),
        ensures
            final(self).wf(),
            final(self).spec_get(prompt.key@) == Some(prompt),
            forall|k: Seq<char>| k != prompt.key@ ==> final(self).spec_get(k) == old(self).spec_get(k),
    {
        let n = self.prompts.len();
        let mut i: usize = 0;
        while i < n
            invariant
                n == self.prompts.len(),
                i <= n,
                self.prompts@ == old(self).prompts@,
                self.wf(),
                forall|j: int| 0 <= j < i ==> self.prompts@[j].key@ != prompt.key@,
            decreases n - i,
        {
            if same_text(self.prompts[i].key.as_str(), prompt.key.as_str()) {
                let ghost before = self.prompts@;
                proof {
                    lemma_lookup_at(before, i as int);
                }
                self.prompts.set(i, prompt);
                assert(self.prompts@ == before.update(i as int, prompt));
                proof {
                    lemma_lookup_at(self.prompts@, i as int);
                    assert forall|k: Seq<char>| k != prompt.key@ implies lookup(self.prompts@, k) == lookup(before, k) by {
                        lemma_lookup_update(before, i as int, prompt, k);
                    }
                }
                return;
            }
            i = i + 1;
        }
        let ghost before = self.prompts@;
        self.prompts.push(prompt);
        proof {
            lemma_lookup_push(before, prompt);
            assert(self.prompts@ == before.push(prompt));
        }
    }

    /// The built-in catalog of fifteen workers.
    pub fn new() -> (r: Self)
        ensures
            r.wf(),
            forall|k: Seq<char>| registered_dependencies(r, k) == builtin_dependencies(k),
            forall|k: Seq<char>| registered_profile(r, k) == builtin_profile(k),
    {
        let mut registry = PromptRegistry::empty();
        registry.initialize_prompts();
        registry
    }

    /// The prompt registered under `key`.
    pub fn get_prompt(&self, key: &str) -> (r: Option<&SpecializedPrompt>)
        ensures
            match r {
                Some(p) => self.spec_get(key@) == Some(*p),
                None => self.spec_get(key@) is None,
            },
    {
        let n = self.prompts.len();
        let mut i: usize = 0;
        assert(self.prompts@.subrange(0, n as int) =~= self.prompts@);
        while i < n
            invariant
                n == self.prompts.len(),
                i <= n,
                lookup(self.prompts@, key@) == lookup(self.prompts@.subrange(i as int, n as int), key@),
            decreases n - i,
        {
            assert(self.prompts@.subrange(i as int, n as int)[0] == self.prompts@[i as int]);
            if same_text(self.prompts[i].key.as_str(), key) {
                return Some(&self.prompts[i]);
            }
            assert(self.prompts@.subrange(i as int, n as int).drop_first() =~= self.prompts@.subrange(i + 1, n as int));
            i = i + 1;
        }
        None
    }

    /// Every prompt, in the order it was added.
    pub fn get_all_prompts(&self) -> (r: &Vec<SpecializedPrompt>)
        ensures
            r@ == self.entries(),
    {
        &self.prompts
    }

    /// The prompts in `category`, in the order they were added.
    pub fn get_prompts_by_category(&self, category: &PromptCategory) -> (r: Vec<&SpecializedPrompt>)
        ensures
            r@.map_values(|p: &SpecializedPrompt| *p) == in_category(self.entries(), *category),
    {
        let mut out: Vec<&SpecializedPrompt> = Vec::new();
        let n = self.prompts.len();
        let mut i: usize = 0;
        while i < n
            invariant
                n == self.prompts.len(),
                i <= n,
                out@.map_values(|p: &SpecializedPrompt| *p) == in_category(self.prompts@.subrange(0, i as int), *category),
            decreases n - i,
        {
            let p = &self.prompts[i];
            assert(self.prompts@.subrange(0, i + 1).drop_last() =~= self.prompts@.subrange(0, i as int));
            if p.category == *category {
                out.push(p);
            }
            assert(out@.map_values(|p: &SpecializedPrompt| *p) =~= in_category(self.prompts@.subrange(0, i + 1), *category));
            i = i + 1;
        }
        assert(self.prompts@.subrange(0, n as int) =~= self.prompts@);
        out
    }

    /// The prompts with `priority`, in the order they were added.
    pub fn get_prompts_by_priority(&self, priority: &Priority) -> (r: Vec<&SpecializedPrompt>)
        ensures
            r@.map_values(|p: &SpecializedPrompt| *p) == with_priority(self.entries(), *priority),
    {
        let mut out: Vec<&SpecializedPrompt> = Vec::new();
        let n = self.prompts.len();
        let mut i: usize = 0;
        while i < n
            invariant
                n == self.prompts.len(),
                i <= n,
                out@.map_values(|p: &SpecializedPrompt| *p) == with_priority(self.prompts@.subrange(0, i as int), *priority),
            decreases n - i,
        {
            let p = &self.prompts[i];
            assert(self.prompts@.subrange(0, i + 1).drop_last() =~= self.prompts@.subrange(0, i as int));
            if p.priority == *priority {
                out.push(p);
            }
            assert(out@.map_values(|p: &SpecializedPrompt| *p) =~= with_priority(self.prompts@.subrange(0, i + 1), *priority));
            i = i + 1;
        }
        assert(self.prompts@.subrange(0, n as int) =~= self.prompts@);
        out
    }

    /// Keys of the prompts commonly needed for a task type; unknown types get a general set.
    pub fn get_recommended_prompts(&self, task_type: &str) -> (r: Vec<String>)
        ensures
            views(r@) == recommended_for(task_type@),
    {
        proof {
            reveal_strlit("feature");
            reveal_strlit("bugfix");
            reveal_strlit("refactor");
            reveal_strlit("explanation");
            reveal_strlit("security");
        }
        let r = if same_text(task_type, "feature") {
            vec![
                "frontend_scanner".to_string(),
                "backend_scanner".to_string(),
                "data_scanner".to_string(),
                "api_scanner".to_string(),
            ]
        } else if same_text(task_type, "bugfix") {
            vec![
                "error_analyzer".to_string(),
                "test_scanner".to_string(),
                "frontend_scanner".to_string(),
                "backend_scanner".to_string(),
            ]
        } else if same_text(task_type, "refactor") {
            vec![
                "refactor_advisor".to_string(),
                "dependency_analyzer".to_string(),
                "performance_analyzer".to_string(),
            ]
        } else if same_text(task_type, "explanation") {
            vec![
                "documentation_scanner".to_string(),
                "frontend_scanner".to_string(),
                "data_scanner".to_string(),
            ]
        } else if same_text(task_type, "security") {
            vec![
                "security_auditor".to_string(),
                "auth_scanner".to_string(),
                "config_scanner".to_string(),
            ]
        } else {
            vec![
                "stack_detector".to_string(),
                "frontend_scanner".to_string(),
                "backend_scanner".to_string(),
            ]
        };
        assert(views(r@) =~= recommended_for(task_type@));
        r
    }
}

proof fn lemma_lookup_at(ps: Seq<SpecializedPrompt>, i: int)
    requires
        0 <= i < ps.len(),
        forall|j: int| 0 <= j < i ==> ps[j].key@ != ps[i].key@,
    ensures
        lookup(ps, ps[i].key@) == Some(ps[i]),
    decreases i,
{
    if i > 0 {
        lemma_lookup_at(ps.drop_first(), i - 1);
    }
}

proof fn lemma_lookup_update(ps: Seq<SpecializedPrompt>, i: int, p: SpecializedPrompt, k: Seq<char>)
    requires
        0 <= i < ps.len(),
        k != p.key@,
        k != ps[i].key@,
    ensures
        lookup(ps.update(i, p), k) == lookup(ps, k),
    decreases ps.len(),
{
    if i > 0 {
        assert(ps.update(i, p).drop_first() =~= ps.drop_first().update(i - 1, p));
        lemma_lookup_update(ps.drop_first(), i - 1, p, k);
    } else {
        assert(ps.update(i, p).drop_first() =~= ps.drop_first());
    }
}

proof fn lemma_lookup_push(ps: Seq<SpecializedPrompt>, p: SpecializedPrompt)
    requires
        forall|j: int| 0 <= j < ps.len() ==> ps[j].key@ != p.key@,
    ensures
        lookup(ps.push(p), p.key@) == Some(p),
        forall|k: Seq<char>| k != p.key@ ==> lookup(ps.push(p), k) == lookup(ps, k),
    decreases ps.len(),
{
    if ps.len() > 0 {
        assert(ps.push(p).drop_first() =~= ps.drop_first().push(p));
        assert(ps.push(p)[0] == ps[0]);
        lemma_lookup_push(ps.drop_first(), p);
        assert forall|k: Seq<char>| k != p.key@ implies lookup(ps.push(p), k) == lookup(ps, k) by {
            let q = ps.push(p);
            assert(q.len() > 0);
            assert(q[0] == ps[0]);
            assert(q.drop_first() == ps.drop_first().push(p));
            if ps[0].key@ != k {
                assert(lookup(q, k) == lookup(q.drop_first(), k));
                assert(lookup(ps, k) == lookup(ps.drop_first(), k));
                assert(lookup(ps.drop_first().push(p), k) == lookup(ps.drop_first(), k));
            } else {
                assert(lookup(q, k) == Some(ps[0]));
                assert(lookup(ps, k) == Some(ps[0]));
            }
        }
    } else {
        assert(ps.push(p).drop_first() =~= ps);
    }
}

impl PromptRegistry {
    fn initialize_prompts(&mut self)
        requires
            old(self).wf(),
            old(self).entries().len() == 0,
        ensures
            final(self).wf(),
            forall|k: Seq<char>| registered_dependencies(*final(self), k) == builtin_dependencies(k),
            forall|k: Seq<char>| registered_profile(*final(self), k) == builtin_profile(k),
    {
        proof {
            reveal_strlit("stack_detector");
            assert("stack_detector"@.len() == 14);
            reveal_strlit("task_classifier");
            assert("task_classifier"@.len() == 15);
            reveal_strlit("frontend_scanner");
            assert("frontend_scanner"@.len() == 16);
            reveal_strlit("backend_scanner");
            assert("backend_scanner"@.len() == 15);
            reveal_strlit("data_scanner");
            assert("data_scanner"@.len() == 12);
            reveal_strlit("auth_scanner");
            assert("auth_scanner"@.len() == 12);
            reveal_strlit("api_scanner");
            assert("api_scanner"@.len() == 11);
            reveal_strlit("test_scanner");
            assert("test_scanner"@.len() == 12);
            reveal_strlit("error_analyzer");
            assert("error_analyzer"@.len() == 14);
            reveal_strlit("config_scanner");
            assert("config_scanner"@.len() == 14);
            reveal_strlit("dependency_analyzer");
            assert("dependency_analyzer"@.len() == 19);
            reveal_strlit("security_auditor");
            assert("security_auditor"@.len() == 16);
            reveal_strlit("performance_analyzer");
            assert("performance_analyzer"@.len() == 20);
            reveal_strlit("documentation_scanner");
            assert("documentation_scanner"@.len() == 21);
            reveal_strlit("refactor_advisor");
            assert("refactor_advisor"@.len() == 16);
            assert("stack_detector"@[0] != "error_analyzer"@[0]);
            assert("stack_detector"@[0] != "config_scanner"@[0]);
            assert("task_classifier"@[0] != "backend_scanner"@[0]);
            assert("frontend_scanner"@[0] != "security_auditor"@[0]);
            assert("frontend_scanner"@[0] != "refactor_advisor"@[0]);
            assert("data_scanner"@[0] != "auth_scanner"@[0]);
            assert("data_scanner"@[0] != "test_scanner"@[0]);
            assert("auth_scanner"@[0] != "test_scanner"@[0]);
            assert("error_analyzer"@[0] != "config_scanner"@[0]);
            assert("security_auditor"@[0] != "refactor_advisor"@[0]);
        }
        let registry = self;
        let ghost g0 = *registry;

        let p = SpecializedPrompt {
                key: "stack_detector".to_string(),
                description: "Analyze file tree and configuration files to detect programming language, framework, and architecture".to_string(),
                template: r#"You are a Stack Detection Specialist. Analyze this project structure and configuration:
Project files: {file_list}
Package managers: {package_managers}
Key config files: {config_files}

Respond with JSON:
{{
  "language": "typescript|rust|python|etc",
  "framework": "nextjs|react|axum|django|etc",
  "architecture": "monolith|microservices|serverless|etc",
  "features": ["ssr", "api", "auth", "database", "etc"]
}}"#.to_string(),
                category: PromptCategory::StackDetection,
                priority: Priority::Critical,
                dependencies: vec![],
                provides_context: vec!["language".to_string(), "framework".to_string(), "architecture".to_string()],
        };
        assert(views(p.dependencies@) =~= seq![]);
        assert(views(p.provides_context@) =~= seq!["language"@, "framework"@, "architecture"@]);
        registry.insert_prompt(p);
        let ghost g1 = *registry;

        let p = SpecializedPrompt {
                key: "task_classifier".to_string(),
                description: "Classify the user's request into categories like feature, bugfix, refactor, explanation".to_string(),
                template: r#"You are a Task Classification Specialist. Analyze this user request and classify it:

User request: {user_prompt}
Project stack: {project_stack}

Respond with JSON:
{{
  "task_type": "feature|bugfix|refactor|explanation|documentation",
  "complexity": "simple|medium|complex",
  "domains": ["ui", "backend", "database", "auth", "api", "testing", "etc"],
  "urgency": "low|medium|high"
}}"#.to_string(),
                category: PromptCategory::TaskClassification,
                priority: Priority::High,
                dependencies: vec![],
                provides_context: vec!["task_type".to_string(), "complexity".to_string(), "domains".to_string()],
        };
        assert(views(p.dependencies@) =~= seq![]);
        assert(views(p.provides_context@) =~= seq!["task_type"@, "complexity"@, "domains"@]);
        registry.insert_prompt(p);
        let ghost g2 = *registry;

        let p = SpecializedPrompt {
                key: "frontend_scanner".to_string(),
                description: "Find UI components, props, styling systems, and frontend patterns".to_string(),
                template: r#"You are a Frontend Specialist. Find relevant frontend code for the task:

Task: {user_prompt}
Project: {project_info}

Search for:
- UI components (Button, Input, Form, etc.)
- Styling systems (CSS, Tailwind, Styled Components)
- State management patterns
- Props interfaces and types

Return JSON array of relevant code snippets with paths and descriptions."#.to_string(),
                category: PromptCategory::Frontend,
                priority: Priority::High,
                dependencies: vec!["stack_detector".to_string()],
                provides_context: vec!["ui_components".to_string(), "styling_system".to_string()],
        };
        assert(views(p.dependencies@) =~= seq!["stack_detector"@]);
        assert(views(p.provides_context@) =~= seq!["ui_components"@, "styling_system"@]);
        registry.insert_prompt(p);
        let ghost g3 = *registry;

        let p = SpecializedPrompt {
                key: "backend_scanner".to_string(),
                description: "Find API routes, controllers, database models, and backend patterns".to_string(),
                template: r#"You are a Backend Specialist. Find relevant backend code for the task:

Task: {user_prompt}
Project: {project_info}

Search for:
- API routes and controllers
- Database models and schemas
- Business logic functions
- Middleware and authentication

Return JSON array of relevant code snippets with paths and descriptions."#.to_string(),
                category: PromptCategory::Backend,
                priority: Priority::High,
                dependencies: vec!["stack_detector".to_string()],
                provides_context: vec!["api_routes".to_string(), "database_models".to_string()],
        };
        assert(views(p.dependencies@) =~= seq!["stack_detector"@]);
        assert(views(p.provides_context@) =~= seq!["api_routes"@, "database_models"@]);
        registry.insert_prompt(p);
        let ghost g4 = *registry;

        let p = SpecializedPrompt {
                key: "data_scanner".to_string(),
                description: "Find type definitions, interfaces, database schemas, and data models".to_string(),
                template: r#"You are a Data Specialist. Find relevant data structures and types for the task:

Task: {user_prompt}
Project: {project_info}

Search for:
- TypeScript interfaces and types
- Database schemas and models
- Validation schemas (Zod, Joi, etc.)
- Data transformation functions

Return JSON array of relevant type definitions and schemas."#.to_string(),
                category: PromptCategory::Data,
                priority: Priority::Medium,
                dependencies: vec!["stack_detector".to_string()],
                provides_context: vec!["type_definitions".to_string(), "validation_schemas".to_string()],
        };
        assert(views(p.dependencies@) =~= seq!["stack_detector"@]);
        assert(views(p.provides_context@) =~= seq!["type_definitions"@, "validation_schemas"@]);
        registry.insert_prompt(p);
        let ghost g5 = *registry;

        let p = SpecializedPrompt {
                key: "auth_scanner".to_string(),
                description: "Find authentication, authorization, and security-related code".to_string(),
                template: r#"You are an Authentication Specialist. Find relevant security code for the task:

Task: {user_prompt}
Project: {project_info}

Search for:
- Login/logout functions
- JWT handling and validation
- User session management
- Authorization middleware
- Password hashing and verification

Return JSON array of relevant authentication code snippets."#.to_string(),
                category: PromptCategory::Security,
                priority: Priority::Medium,
                dependencies: vec![],
                provides_context: vec!["auth_patterns".to_string(), "security_middleware".to_string()],
        };
        assert(views(p.dependencies@) =~= seq![]);
        assert(views(p.provides_context@) =~= seq!["auth_patterns"@, "security_middleware"@]);
        registry.insert_prompt(p);
        let ghost g6 = *registry;

        let p = SpecializedPrompt {
                key: "api_scanner".to_string(),
                description: "Find API endpoints, HTTP handlers, and external service integrations".to_string(),
                template: r#"You are an API Specialist. Find relevant API code for the task:

Task: {user_prompt}
Project: {project_info}

Search for:
- REST API endpoints
- GraphQL resolvers
- External API integrations
- HTTP client code
- Request/response handling

Return JSON array of relevant API code snippets."#.to_string(),
                category: PromptCategory::Backend,
                priority: Priority::Medium,
                dependencies: vec!["stack_detector".to_string()],
                provides_context: vec!["api_endpoints".to_string(), "external_integrations".to_string()],
        };
        assert(views(p.dependencies@) =~= seq!["stack_detector"@]);
        assert(views(p.provides_context@) =~= seq!["api_endpoints"@, "external_integrations"@]);
        registry.insert_prompt(p);
        let ghost g7 = *registry;

        let p = SpecializedPrompt {
                key: "test_scanner".to_string(),
                description: "Find unit tests, integration tests, and testing utilities".to_string(),
                template: r#"You are a Testing Specialist. Find relevant test code for the task:

Task: {user_prompt}
Project: {project_info}

Search for:
- Unit tests for the relevant components
- Integration tests
- Test utilities and mocks
- Test configuration files

Return JSON array of relevant test files and utilities."#.to_string(),
                category: PromptCategory::Testing,
                priority: Priority::Low,
                dependencies: vec!["frontend_scanner".to_string(), "backend_scanner".to_string()],
                provides_context: vec!["test_files".to_string(), "test_utilities".to_string()],
        };
        assert(views(p.dependencies@) =~= seq!["frontend_scanner"@, "backend_scanner"@]);
        assert(views(p.provides_context@) =~= seq!["test_files"@, "test_utilities"@]);
        registry.insert_prompt(p);
        let ghost g8 = *registry;

        let p = SpecializedPrompt {
                key: "error_analyzer".to_string(),
                description: "Analyze error logs and find the files causing issues".to_string(),
                template: r#"You are an Error Analysis Specialist. Analyze this error and find related code:

Error: {error_message}
Project: {project_info}

Search for:
- Files mentioned in the error
- Similar error handling patterns
- Logging and error reporting code
- Exception handling blocks

Return JSON with analysis and relevant code locations."#.to_string(),
                category: PromptCategory::ErrorAnalysis,
                priority: Priority::High,
                dependencies: vec![],
                provides_context: vec!["error_locations".to_string(), "error_patterns".to_string()],
        };
        assert(views(p.dependencies@) =~= seq![]);
        assert(views(p.provides_context@) =~= seq!["error_locations"@, "error_patterns"@]);
        registry.insert_prompt(p);
        let ghost g9 = *registry;

        let p = SpecializedPrompt {
                key: "config_scanner".to_string(),
                description: "Find configuration files, environment variables, and deployment settings".to_string(),
                template: r#"You are a Configuration Specialist. Find relevant config files for the task:

Task: {user_prompt}
Project: {project_info}

Search for:
- Environment variable usage
- Configuration files (JSON, YAML, TOML)
- Docker configurations
- Build and deployment scripts

Return JSON array of relevant configuration code."#.to_string(),
                category: PromptCategory::Infrastructure,
                priority: Priority::Low,
                dependencies: vec![],
                provides_context: vec!["config_files".to_string(), "environment_vars".to_string()],
        };
        assert(views(p.dependencies@) =~= seq![]);
        assert(views(p.provides_context@) =~= seq!["config_files"@, "environment_vars"@]);
        registry.insert_prompt(p);
        let ghost g10 = *registry;

        let p = SpecializedPrompt {
                key: "dependency_analyzer".to_string(),
                description: "Analyze import relationships and dependency chains".to_string(),
                template: r#"You are a Dependency Analysis Specialist. Map the dependencies for the task:

Task: {user_prompt}
Starting file: {file_path}
Project: {project_info}

Trace:
- Direct imports of the target file
- Files that import the target file
- Transitive dependencies
- Circular dependency warnings

Return JSON with dependency graph and relationships."#.to_string(),
                category: PromptCategory::Infrastructure,
                priority: Priority::Medium,
                dependencies: vec!["frontend_scanner".to_string(), "backend_scanner".to_string()],
                provides_context: vec!["dependency_graph".to_string(), "import_chains".to_string()],
        };
        assert(views(p.dependencies@) =~= seq!["frontend_scanner"@, "backend_scanner"@]);
        assert(views(p.provides_context@) =~= seq!["dependency_graph"@, "import_chains"@]);
        registry.insert_prompt(p);
        let ghost g11 = *registry;

        let p = SpecializedPrompt {
                key: "security_auditor".to_string(),
                description: "Check for security vulnerabilities and authentication patterns".to_string(),
                template: r#"You are a Security Auditor. Review code for security issues:

Task: {user_prompt}
Project: {project_info}

Check for:
- Input validation and sanitization
- SQL injection vulnerabilities
- XSS protection
- Authentication bypasses
- Secure password handling
- HTTPS enforcement

Return JSON with security analysis and recommendations."#.to_string(),
                category: PromptCategory::Security,
                priority: Priority::Medium,
                dependencies: vec!["auth_scanner".to_string()],
                provides_context: vec!["security_issues".to_string(), "security_recommendations".to_string()],
        };
        assert(views(p.dependencies@) =~= seq!["auth_scanner"@]);
        assert(views(p.provides_context@) =~= seq!["security_issues"@, "security_recommendations"@]);
        registry.insert_prompt(p);
        let ghost g12 = *registry;

        let p = SpecializedPrompt {
                key: "performance_analyzer".to_string(),
                description: "Analyze code for performance bottlenecks and optimization opportunities".to_string(),
                template: r#"You are a Performance Analyst. Review code for performance issues:

Task: {user_prompt}
Project: {project_info}

Analyze:
- Database query efficiency
- Memory usage patterns
- CPU-intensive operations
- Caching opportunities
- Bottleneck identification

Return JSON with performance analysis and optimization suggestions."#.to_string(),
                category: PromptCategory::Infrastructure,
                priority: Priority::Low,
                dependencies: vec!["backend_scanner".to_string()],
                provides_context: vec!["performance_bottlenecks".to_string(), "optimization_suggestions".to_string()],
        };
        assert(views(p.dependencies@) =~= seq!["backend_scanner"@]);
        assert(views(p.provides_context@) =~= seq!["performance_bottlenecks"@, "optimization_suggestions"@]);
        registry.insert_prompt(p);
        let ghost g13 = *registry;

        let p = SpecializedPrompt {
                key: "documentation_scanner".to_string(),
                description: "Find documentation, READMEs, and code comments".to_string(),
                template: r#"You are a Documentation Specialist. Find relevant documentation for the task:

Task: {user_prompt}
Project: {project_info}

Search for:
- README files and documentation
- Code comments and JSDoc
- API documentation
- Usage examples

Return JSON array of relevant documentation."#.to_string(),
                category: PromptCategory::Documentation,
                priority: Priority::Low,
                dependencies: vec![],
                provides_context: vec!["documentation".to_string(), "code_comments".to_string()],
        };
        assert(views(p.dependencies@) =~= seq![]);
        assert(views(p.provides_context@) =~= seq!["documentation"@, "code_comments"@]);
        registry.insert_prompt(p);
        let ghost g14 = *registry;

        let p = SpecializedPrompt {
                key: "refactor_advisor".to_string(),
                description: "Suggest refactoring opportunities and code improvements".to_string(),
                template: r#"You are a Refactoring Advisor. Analyze code for improvement opportunities:

Task: {user_prompt}
Project: {project_info}

Look for:
- Code duplication
- Complex functions to simplify
- Better abstraction opportunities
- Performance improvements
- Maintainability enhancements

Return JSON with refactoring suggestions and code examples."#.to_string(),
                category: PromptCategory::TaskClassification,
                priority: Priority::Low,
                dependencies: vec!["frontend_scanner".to_string(), "backend_scanner".to_string()],
                provides_context: vec!["refactoring_suggestions".to_string(), "code_improvements".to_string()],
        };
        assert(views(p.dependencies@) =~= seq!["frontend_scanner"@, "backend_scanner"@]);
        assert(views(p.provides_context@) =~= seq!["refactoring_suggestions"@, "code_improvements"@]);
        registry.insert_prompt(p);
        let ghost g15 = *registry;
        assert forall|k: Seq<char>| registered_dependencies(*registry, k) == builtin_dependencies(k) by {
            if k == "stack_detector"@ {
                assert(g15.spec_get(k) == g14.spec_get(k));
                assert(g14.spec_get(k) == g13.spec_get(k));
                assert(g13.spec_get(k) == g12.spec_get(k));
                assert(g12.spec_get(k) == g11.spec_get(k));
                assert(g11.spec_get(k) == g10.spec_get(k));
                assert(g10.spec_get(k) == g9.spec_get(k));
                assert(g9.spec_get(k) == g8.spec_get(k));
                assert(g8.spec_get(k) == g7.spec_get(k));
                assert(g7.spec_get(k) == g6.spec_get(k));
                assert(g6.spec_get(k) == g5.spec_get(k));
                assert(g5.spec_get(k) == g4.spec_get(k));
                assert(g4.spec_get(k) == g3.spec_get(k));
                assert(g3.spec_get(k) == g2.spec_get(k));
                assert(g2.spec_get(k) == g1.spec_get(k));
                assert(registered_dependencies(g1, k) == builtin_dependencies(k));
                assert(registered_profile(g1, k) == builtin_profile(k));
            } else if k == "task_classifier"@ {
                assert(g15.spec_get(k) == g14.spec_get(k));
                assert(g14.spec_get(k) == g13.spec_get(k));
                assert(g13.spec_get(k) == g12.spec_get(k));
                assert(g12.spec_get(k) == g11.spec_get(k));
                assert(g11.spec_get(k) == g10.spec_get(k));
                assert(g10.spec_get(k) == g9.spec_get(k));
                assert(g9.spec_get(k) == g8.spec_get(k));
                assert(g8.spec_get(k) == g7.spec_get(k));
                assert(g7.spec_get(k) == g6.spec_get(k));
                assert(g6.spec_get(k) == g5.spec_get(k));
                assert(g5.spec_get(k) == g4.spec_get(k));
                assert(g4.spec_get(k) == g3.spec_get(k));
                assert(g3.spec_get(k) == g2.spec_get(k));
                assert(registered_dependencies(g2, k) == builtin_dependencies(k));
                assert(registered_profile(g2, k) == builtin_profile(k));
            } else if k == "frontend_scanner"@ {
                assert(g15.spec_get(k) == g14.spec_get(k));
                assert(g14.spec_get(k) == g13.spec_get(k));
                assert(g13.spec_get(k) == g12.spec_get(k));
                assert(g12.spec_get(k) == g11.spec_get(k));
                assert(g11.spec_get(k) == g10.spec_get(k));
                assert(g10.spec_get(k) == g9.spec_get(k));
                assert(g9.spec_get(k) == g8.spec_get(k));
                assert(g8.spec_get(k) == g7.spec_get(k));
                assert(g7.spec_get(k) == g6.spec_get(k));
                assert(g6.spec_get(k) == g5.spec_get(k));
                assert(g5.spec_get(k) == g4.spec_get(k));
                assert(g4.spec_get(k) == g3.spec_get(k));
                assert(registered_dependencies(g3, k) == builtin_dependencies(k));
                assert(registered_profile(g3, k) == builtin_profile(k));
            } else if k == "backend_scanner"@ {
                assert(g15.spec_get(k) == g14.spec_get(k));
                assert(g14.spec_get(k) == g13.spec_get(k));
                assert(g13.spec_get(k) == g12.spec_get(k));
                assert(g12.spec_get(k) == g11.spec_get(k));
                assert(g11.spec_get(k) == g10.spec_get(k));
                assert(g10.spec_get(k) == g9.spec_get(k));
                assert(g9.spec_get(k) == g8.spec_get(k));
                assert(g8.spec_get(k) == g7.spec_get(k));
                assert(g7.spec_get(k) == g6.spec_get(k));
                assert(g6.spec_get(k) == g5.spec_get(k));
                assert(g5.spec_get(k) == g4.spec_get(k));
                assert(registered_dependencies(g4, k) == builtin_dependencies(k));
                assert(registered_profile(g4, k) == builtin_profile(k));
            } else if k == "data_scanner"@ {
                assert(g15.spec_get(k) == g14.spec_get(k));
                assert(g14.spec_get(k) == g13.spec_get(k));
                assert(g13.spec_get(k) == g12.spec_get(k));
                assert(g12.spec_get(k) == g11.spec_get(k));
                assert(g11.spec_get(k) == g10.spec_get(k));
                assert(g10.spec_get(k) == g9.spec_get(k));
                assert(g9.spec_get(k) == g8.spec_get(k));
                assert(g8.spec_get(k) == g7.spec_get(k));
                assert(g7.spec_get(k) == g6.spec_get(k));
                assert(g6.spec_get(k) == g5.spec_get(k));
                assert(registered_dependencies(g5, k) == builtin_dependencies(k));
                assert(registered_profile(g5, k) == builtin_profile(k));
            } else if k == "auth_scanner"@ {
                assert(g15.spec_get(k) == g14.spec_get(k));
                assert(g14.spec_get(k) == g13.spec_get(k));
                assert(g13.spec_get(k) == g12.spec_get(k));
                assert(g12.spec_get(k) == g11.spec_get(k));
                assert(g11.spec_get(k) == g10.spec_get(k));
                assert(g10.spec_get(k) == g9.spec_get(k));
                assert(g9.spec_get(k) == g8.spec_get(k));
                assert(g8.spec_get(k) == g7.spec_get(k));
                assert(g7.spec_get(k) == g6.spec_get(k));
                assert(registered_dependencies(g6, k) == builtin_dependencies(k));
                assert(registered_profile(g6, k) == builtin_profile(k));
            } else if k == "api_scanner"@ {
                assert(g15.spec_get(k) == g14.spec_get(k));
                assert(g14.spec_get(k) == g13.spec_get(k));
                assert(g13.spec_get(k) == g12.spec_get(k));
                assert(g12.spec_get(k) == g11.spec_get(k));
                assert(g11.spec_get(k) == g10.spec_get(k));
                assert(g10.spec_get(k) == g9.spec_get(k));
                assert(g9.spec_get(k) == g8.spec_get(k));
                assert(g8.spec_get(k) == g7.spec_get(k));
                assert(registered_dependencies(g7, k) == builtin_dependencies(k));
                assert(registered_profile(g7, k) == builtin_profile(k));
            } else if k == "test_scanner"@ {
                assert(g15.spec_get(k) == g14.spec_get(k));
                assert(g14.spec_get(k) == g13.spec_get(k));
                assert(g13.spec_get(k) == g12.spec_get(k));
                assert(g12.spec_get(k) == g11.spec_get(k));
                assert(g11.spec_get(k) == g10.spec_get(k));
                assert(g10.spec_get(k) == g9.spec_get(k));
                assert(g9.spec_get(k) == g8.spec_get(k));
                assert(registered_dependencies(g8, k) == builtin_dependencies(k));
                assert(registered_profile(g8, k) == builtin_profile(k));
            } else if k == "error_analyzer"@ {
                assert(g15.spec_get(k) == g14.spec_get(k));
                assert(g14.spec_get(k) == g13.spec_get(k));
                assert(g13.spec_get(k) == g12.spec_get(k));
                assert(g12.spec_get(k) == g11.spec_get(k));
                assert(g11.spec_get(k) == g10.spec_get(k));
                assert(g10.spec_get(k) == g9.spec_get(k));
                assert(registered_dependencies(g9, k) == builtin_dependencies(k));
                assert(registered_profile(g9, k) == builtin_profile(k));
            } else if k == "config_scanner"@ {
                assert(g15.spec_get(k) == g14.spec_get(k));
                assert(g14.spec_get(k) == g13.spec_get(k));
                assert(g13.spec_get(k) == g12.spec_get(k));
                assert(g12.spec_get(k) == g11.spec_get(k));
                assert(g11.spec_get(k) == g10.spec_get(k));
                assert(registered_dependencies(g10, k) == builtin_dependencies(k));
                assert(registered_profile(g10, k) == builtin_profile(k));
            } else if k == "dependency_analyzer"@ {
                assert(g15.spec_get(k) == g14.spec_get(k));
                assert(g14.spec_get(k) == g13.spec_get(k));
                assert(g13.spec_get(k) == g12.spec_get(k));
                assert(g12.spec_get(k) == g11.spec_get(k));
                assert(registered_dependencies(g11, k) == builtin_dependencies(k));
                assert(registered_profile(g11, k) == builtin_profile(k));
            } else if k == "security_auditor"@ {
                assert(g15.spec_get(k) == g14.spec_get(k));
                assert(g14.spec_get(k) == g13.spec_get(k));
                assert(g13.spec_get(k) == g12.spec_get(k));
                assert(registered_dependencies(g12, k) == builtin_dependencies(k));
                assert(registered_profile(g12, k) == builtin_profile(k));
            } else if k == "performance_analyzer"@ {
                assert(g15.spec_get(k) == g14.spec_get(k));
                assert(g14.spec_get(k) == g13.spec_get(k));
                assert(registered_dependencies(g13, k) == builtin_dependencies(k));
                assert(registered_profile(g13, k) == builtin_profile(k));
            } else if k == "documentation_scanner"@ {
                assert(g15.spec_get(k) == g14.spec_get(k));
                assert(registered_dependencies(g14, k) == builtin_dependencies(k));
                assert(registered_profile(g14, k) == builtin_profile(k));
            } else if k == "refactor_advisor"@ {
                assert(registered_dependencies(g15, k) == builtin_dependencies(k));
                assert(registered_profile(g15, k) == builtin_profile(k));
            } else {
                assert(g15.spec_get(k) == g14.spec_get(k));
                assert(g14.spec_get(k) == g13.spec_get(k));
                assert(g13.spec_get(k) == g12.spec_get(k));
                assert(g12.spec_get(k) == g11.spec_get(k));
                assert(g11.spec_get(k) == g10.spec_get(k));
                assert(g10.spec_get(k) == g9.spec_get(k));
                assert(g9.spec_get(k) == g8.spec_get(k));
                assert(g8.spec_get(k) == g7.spec_get(k));
                assert(g7.spec_get(k) == g6.spec_get(k));
                assert(g6.spec_get(k) == g5.spec_get(k));
                assert(g5.spec_get(k) == g4.spec_get(k));
                assert(g4.spec_get(k) == g3.spec_get(k));
                assert(g3.spec_get(k) == g2.spec_get(k));
                assert(g2.spec_get(k) == g1.spec_get(k));
                assert(g1.spec_get(k) == g0.spec_get(k));
                assert(g0.spec_get(k) is None);
            }
        }
    }
}

} // verus!
