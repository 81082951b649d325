use vstd::prelude::*;

use crate::json::{get_member, json_of, member, parse_json, JsonValue};
use crate::registry::views;
use crate::router::opt_str;
use crate::schedule::contains_text;
use crate::text::{
    contains_str, has_infix, join, joined, lines, lines_spec, same_text, split_spec, split_str, strip_prefixes,
    strip_suffixes, trim, trim_end_matches, trim_spec, trim_start_matches,
};
use crate::workers::text_of;

verus! {

broadcast use vstd::seq::Seq::lemma_push_map_commute;

/// What was detected of a project: language, framework, libraries and features.
pub struct ProjectSignature {
    pub language: String,
    pub framework: String,
    pub package_manager: String,
    pub ui_library: Option<String>,
    pub validation_library: Option<String>,
    pub auth_library: Option<String>,
    pub styling: Vec<String>,
    /// Dependency names and versions, in the order they were read.
    pub dependencies: Vec<(String, String)>,
    pub dev_dependencies: Vec<(String, String)>,
    pub features: Vec<String>,
}

/// What detection reads from the project directory, gathered by the caller.
pub struct ProjectFacts {
    /// The paths, relative to the project root, that exist among those asked about.
    pub present: Vec<String>,
    /// The text of `package.json`, if it could be read.
    pub package_json: Option<String>,
    /// The text of `Cargo.toml`, if it could be read.
    pub cargo_toml: Option<String>,
}

/// The names of dependency pairs.
pub open spec fn dep_names(deps: Seq<(String, String)>) -> Seq<Seq<char>> {
    deps.map_values(|d: (String, String)| d.0@)
}

/// Whether a dependency is named `name`.
pub open spec fn has_dep(deps: Seq<(String, String)>, name: Seq<char>) -> bool {
    dep_names(deps).contains(name)
}

/// Whether `name` is a dependency.
pub fn has_dependency(deps: &Vec<(String, String)>, name: &str) -> (r: bool)
    ensures
        r == has_dep(deps@, name@),
{
    let n = deps.len();
    let mut i: usize = 0;
    while i < n
        invariant
            n == deps.len(),
            i <= n,
            forall|j: int| 0 <= j < i ==> deps@[j].0@ != name@,
        decreases n - i,
    {
        if same_text(deps[i].0.as_str(), name) {
            assert(dep_names(deps@)[i as int] == name@);
            return true;
        }
        i = i + 1;
    }
    assert forall|j: int| 0 <= j < dep_names(deps@).len() implies dep_names(deps@)[j] != name@ by {
        assert(dep_names(deps@)[j] == deps@[j].0@);
    }
    false
}

/// The first library of `table` whose package is a dependency.
pub open spec fn first_library(deps: Seq<(String, String)>, table: Seq<(Seq<char>, Seq<char>)>) -> Option<Seq<char>>
    decreases table.len(),
{
    if table.len() == 0 {
        None
    } else if has_dep(deps, table[0].0) {
        Some(table[0].1)
    } else {
        first_library(deps, table.drop_first())
    }
}

pub open spec fn validation_table() -> Seq<(Seq<char>, Seq<char>)> {
    seq![
        ("zod"@, "Zod"@),
        ("yup"@, "Yup"@),
        ("joi"@, "Joi"@),
        ("class-validator"@, "Class Validator"@),
        ("react-hook-form"@, "React Hook Form + Zod/Yup"@),
    ]
}

pub open spec fn auth_table() -> Seq<(Seq<char>, Seq<char>)> {
    seq![
        ("next-auth"@, "NextAuth.js"@),
        ("@auth0/auth0-react"@, "Auth0"@),
        ("@supabase/auth-helpers-nextjs"@, "Supabase Auth"@),
        ("firebase"@, "Firebase Auth"@),
        ("jsonwebtoken"@, "JWT"@),
    ]
}

pub open spec fn ui_table() -> Seq<(Seq<char>, Seq<char>)> {
    seq![
        ("@shadcn/ui"@, "shadcn/ui"@),
        ("headlessui"@, "Headless UI"@),
        ("@headlessui/react"@, "Headless UI"@),
        ("@radix-ui"@, "Radix UI"@),
        ("mantine"@, "Mantine"@),
        ("chakra-ui"@, "Chakra UI"@),
        ("antd"@, "Ant Design"@),
        ("material-ui"@, "Material-UI"@),
    ]
}

fn library_in(deps: &Vec<(String, String)>, table: &Vec<(&str, &str)>) -> (r: Option<String>)
    ensures
        opt_str(r) == first_library(deps@, table@.map_values(|e: (&str, &str)| (e.0@, e.1@))),
{
    let ghost t = table@.map_values(|e: (&str, &str)| (e.0@, e.1@));
    let n = table.len();
    let mut i: usize = 0;
    assert(t.subrange(0, n as int) =~= t);
    while i < n
        invariant
            n == table.len(),
            t == table@.map_values(|e: (&str, &str)| (e.0@, e.1@)),
            i <= n,
            first_library(deps@, t) == first_library(deps@, t.subrange(i as int, n as int)),
        decreases n - i,
    {
        let ghost rest = t.subrange(i as int, n as int);
        assert(rest[0] == t[i as int]);
        if has_dependency(deps, table[i].0) {
            return Some(table[i].1.to_string());
        }
        assert(rest.drop_first() =~= t.subrange(i + 1, n as int));
        i = i + 1;
    }
    None
}

/// The sentence parts of a description, before joining.
pub open spec fn description_parts(s: ProjectSignature) -> Seq<Seq<char>> {
    (if s.language@.len() > 0 { seq!["Language: "@ + s.language@] } else { seq![] })
        + (if s.framework@.len() > 0 { seq!["Framework: "@ + s.framework@] } else { seq![] })
        + (if s.package_manager@.len() > 0 { seq!["Package Manager: "@ + s.package_manager@] } else { seq![] })
        + (match s.ui_library { Some(u) => seq!["UI Library: "@ + u@], None => seq![] })
        + (match s.validation_library { Some(v) => seq!["Validation: "@ + v@], None => seq![] })
}

/// The questions suggested by the language.
pub open spec fn language_questions(l: Seq<char>) -> Seq<Seq<char>> {
    if l == "typescript"@ || l == "javascript"@ {
        seq![
            "What React components are used for UI?"@,
            "What TypeScript types are defined?"@,
            "What utility functions are available?"@,
        ]
    } else if l == "rust"@ {
        seq!["What structs and enums are defined?"@, "What functions are available?"@, "What traits are implemented?"@]
    } else if l == "python"@ {
        seq!["What classes are defined?"@, "What functions are available?"@, "What modules are imported?"@]
    } else {
        seq!["What components are available?"@, "What types are defined?"@]
    }
}

/// `seq![item]` when `cond` holds, else empty.
pub open spec fn one_if(cond: bool, item: Seq<char>) -> Seq<Seq<char>> {
    if cond {
        seq![item]
    } else {
        seq![]
    }
}

/// Whether the validation library is Zod.
pub open spec fn uses_zod(s: ProjectSignature) -> bool {
    match s.validation_library {
        Some(v) => v@ == "Zod"@,
        None => false,
    }
}

/// The questions suggested by the language, then by the framework and validation library.
pub open spec fn question_templates(s: ProjectSignature) -> Seq<Seq<char>> {
    language_questions(s.language@) + one_if(has_infix(s.framework@, "React"@), "What React hooks are used?"@)
        + one_if(has_infix(s.framework@, "Next.js"@), "What Next.js pages or API routes exist?"@)
        + one_if(has_infix(s.framework@, "NestJS"@), "What NestJS controllers and services exist?"@)
        + one_if(uses_zod(s), "What Zod schemas are defined?"@)
}

fn language_question_list(l: &str) -> (r: Vec<String>)
    ensures
        views(r@) == language_questions(l@),
{
    proof {
        reveal_strlit("typescript");
        reveal_strlit("javascript");
        reveal_strlit("rust");
        reveal_strlit("python");
    }
    let mut q: Vec<String> = Vec::new();
    if same_text(l, "typescript") || same_text(l, "javascript") {
        q.push("What React components are used for UI?".to_string());
        q.push("What TypeScript types are defined?".to_string());
        q.push("What utility functions are available?".to_string());
    } else if same_text(l, "rust") {
        q.push("What structs and enums are defined?".to_string());
        q.push("What functions are available?".to_string());
        q.push("What traits are implemented?".to_string());
    } else if same_text(l, "python") {
        q.push("What classes are defined?".to_string());
        q.push("What functions are available?".to_string());
        q.push("What modules are imported?".to_string());
    } else {
        q.push("What components are available?".to_string());
        q.push("What types are defined?".to_string());
    }
    assert(views(q@) =~= language_questions(l@));
    q
}

fn prefixed(prefix: &str, s: &str) -> (r: String)
    ensures
        r@ == prefix@ + s@,
{
    let mut r = prefix.to_string();
    r.append(s);
    r
}

fn push_when(v: &mut Vec<String>, cond: bool, item: &str)
    ensures
        views(final(v)@) == views(old(v)@) + one_if(cond, item@),
{
    if cond {
        v.push(item.to_string());
    }
    assert(views(final(v)@) =~= views(old(v)@) + one_if(cond, item@));
}

impl ProjectSignature {
    /// A signature with every field empty.
    pub fn empty() -> (r: ProjectSignature)
        ensures
            r.language@.len() == 0,
            r.framework@.len() == 0,
            r.package_manager@.len() == 0,
            r.ui_library is None,
            r.validation_library is None,
            r.auth_library is None,
            r.styling@.len() == 0,
            r.dependencies@.len() == 0,
            r.dev_dependencies@.len() == 0,
            r.features@.len() == 0,
    {
        ProjectSignature {
            language: String::new(),
            framework: String::new(),
            package_manager: String::new(),
            ui_library: None,
            validation_library: None,
            auth_library: None,
            styling: Vec::new(),
            dependencies: Vec::new(),
            dev_dependencies: Vec::new(),
            features: Vec::new(),
        }
    }

    /// A human-readable description: the known fields, joined by commas.
    pub fn to_description(&self) -> (r: String)
        ensures
            r@ == joined(description_parts(*self), ", "@),
    {
        let mut parts: Vec<String> = Vec::new();
        if self.language.unicode_len() > 0 {
            parts.push(prefixed("Language: ", self.language.as_str()));
        }
        if self.framework.unicode_len() > 0 {
            parts.push(prefixed("Framework: ", self.framework.as_str()));
        }
        if self.package_manager.unicode_len() > 0 {
            parts.push(prefixed("Package Manager: ", self.package_manager.as_str()));
        }
        match &self.ui_library {
            Some(u) => parts.push(prefixed("UI Library: ", u.as_str())),
            None => {},
        }
        match &self.validation_library {
            Some(v) => parts.push(prefixed("Validation: ", v.as_str())),
            None => {},
        }
        assert(views(parts@) =~= description_parts(*self));
        join(parts.as_slice(), ", ")
    }

    /// The dominant language.
    pub fn dominant_language(&self) -> (r: &str)
        ensures
            r@ == self.language@,
    {
        self.language.as_str()
    }

    /// Questions suited to the project's language, framework and validation library.
    pub fn get_question_templates(&self) -> (r: Vec<String>)
        ensures
            views(r@) == question_templates(*self),
    {
        proof {
            reveal_strlit("Zod");
        }
        let mut q = language_question_list(self.language.as_str());
        let f = self.framework.as_str();
        push_when(&mut q, contains_str(f, "React"), "What React hooks are used?");
        push_when(&mut q, contains_str(f, "Next.js"), "What Next.js pages or API routes exist?");
        push_when(&mut q, contains_str(f, "NestJS"), "What NestJS controllers and services exist?");
        let zod = match &self.validation_library {
            Some(v) => same_text(v.as_str(), "Zod"),
            None => false,
        };
        push_when(&mut q, zod, "What Zod schemas are defined?");
        q
    }

    /// The validation library named by the dependencies.
    pub fn detect_validation_library(dependencies: &Vec<(String, String)>) -> (r: Option<String>)
        ensures
            opt_str(r) == first_library(dependencies@, validation_table()),
    {
        let table = vec![
            ("zod", "Zod"),
            ("yup", "Yup"),
            ("joi", "Joi"),
            ("class-validator", "Class Validator"),
            ("react-hook-form", "React Hook Form + Zod/Yup"),
        ];
        assert(table@.map_values(|e: (&str, &str)| (e.0@, e.1@)) =~= validation_table());
        library_in(dependencies, &table)
    }

    /// The authentication library named by the dependencies.
    pub fn detect_auth_library(dependencies: &Vec<(String, String)>) -> (r: Option<String>)
        ensures
            opt_str(r) == first_library(dependencies@, auth_table()),
    {
        let table = vec![
            ("next-auth", "NextAuth.js"),
            ("@auth0/auth0-react", "Auth0"),
            ("@supabase/auth-helpers-nextjs", "Supabase Auth"),
            ("firebase", "Firebase Auth"),
            ("jsonwebtoken", "JWT"),
        ];
        assert(table@.map_values(|e: (&str, &str)| (e.0@, e.1@)) =~= auth_table());
        library_in(dependencies, &table)
    }

    /// The UI library named by the dependencies; else, when the caller found one of the
    /// common components in use (`component_in_use`), a custom library built on it.
    pub fn detect_ui_library(dependencies: &Vec<(String, String)>, component_in_use: Option<&str>) -> (r: Option<String>)
        ensures
            opt_str(r) == match first_library(dependencies@, ui_table()) {
                Some(name) => Some(name),
                None => match component_in_use {
                    Some(c) => Some("Custom UI (uses "@ + c@ + ")"@),
                    None => None,
                },
            },
    {
        let table = vec![
            ("@shadcn/ui", "shadcn/ui"),
            ("headlessui", "Headless UI"),
            ("@headlessui/react", "Headless UI"),
            ("@radix-ui", "Radix UI"),
            ("mantine", "Mantine"),
            ("chakra-ui", "Chakra UI"),
            ("antd", "Ant Design"),
            ("material-ui", "Material-UI"),
        ];
        assert(table@.map_values(|e: (&str, &str)| (e.0@, e.1@)) =~= ui_table());
        match library_in(dependencies, &table) {
            Some(name) => Some(name),
            None => match component_in_use {
                Some(c) => {
                    let mut s = prefixed("Custom UI (uses ", c);
                    s.append(")");
                    Some(s)
                },
                None => None,
            },
        }
    }
}

/// The package manager named by the first manifest present, in a fixed order.
pub open spec fn package_manager_of(present: Seq<Seq<char>>) -> Option<Seq<char>> {
    if present.contains("package.json"@) {
        Some("npm"@)
    } else if present.contains("Cargo.toml"@) {
        Some("cargo"@)
    } else if present.contains("pyproject.toml"@) {
        Some("pip"@)
    } else if present.contains("requirements.txt"@) {
        Some("pip"@)
    } else if present.contains("yarn.lock"@) {
        Some("yarn"@)
    } else if present.contains("pnpm-lock.yaml"@) {
        Some("pnpm"@)
    } else {
        None
    }
}

/// The package manager named by the first manifest present.
pub fn detect_package_manager(facts: &ProjectFacts) -> (r: Option<String>)
    ensures
        opt_str(r) == package_manager_of(views(facts.present@)),
{
    let p = &facts.present;
    if contains_text(p, "package.json") {
        Some("npm".to_string())
    } else if contains_text(p, "Cargo.toml") {
        Some("cargo".to_string())
    } else if contains_text(p, "pyproject.toml") {
        Some("pip".to_string())
    } else if contains_text(p, "requirements.txt") {
        Some("pip".to_string())
    } else if contains_text(p, "yarn.lock") {
        Some("yarn".to_string())
    } else if contains_text(p, "pnpm-lock.yaml") {
        Some("pnpm".to_string())
    } else {
        None
    }
}

/// The dependency pairs of a JSON object's members: each name with its version text,
/// empty when the version is not a string.
pub open spec fn dep_pairs(ms: Seq<(String, JsonValue)>) -> Seq<(Seq<char>, Seq<char>)>
    decreases ms.len(),
{
    if ms.len() == 0 {
        seq![]
    } else {
        dep_pairs(ms.drop_last()).push((ms.last().0@, text_of(ms.last().1)))
    }
}

/// The dependency pairs of member `key` of a manifest; none when it is not an object.
pub open spec fn manifest_deps(v: JsonValue, key: Seq<char>) -> Seq<(Seq<char>, Seq<char>)> {
    match v {
        JsonValue::Object(ms) => match member(ms@, key) {
            Some(JsonValue::Object(ds)) => dep_pairs(ds@),
            _ => seq![],
        },
        _ => seq![],
    }
}

/// The view of dependency pairs.
pub open spec fn pair_views(deps: Seq<(String, String)>) -> Seq<(Seq<char>, Seq<char>)> {
    deps.map_values(|d: (String, String)| (d.0@, d.1@))
}

fn deps_from(v: &JsonValue, key: &str, out: &mut Vec<(String, String)>)
    ensures
        pair_views(final(out)@) == pair_views(old(out)@) + manifest_deps(*v, key@),
{
    let ghost start = pair_views(out@);
    match v {
        JsonValue::Object(_) => match get_member(v, key) {
            Some(JsonValue::Object(ds)) => {
                let n = ds.len();
                let mut i: usize = 0;
                while i < n
                    invariant
                        n == ds.len(),
                        i <= n,
                        pair_views(out@) == start + dep_pairs(ds@.subrange(0, i as int)),
                    decreases n - i,
                {
                    assert(ds@.subrange(0, i + 1).drop_last() =~= ds@.subrange(0, i as int));
                    assert(ds@.subrange(0, i + 1).last() == ds@[i as int]);
                    let version = match &ds[i].1 {
                        JsonValue::Str(s) => s.clone(),
                        _ => String::new(),
                    };
                    out.push((ds[i].0.clone(), version));
                    assert(pair_views(out@) =~= start + dep_pairs(ds@.subrange(0, i + 1)));
                    i = i + 1;
                }
                assert(ds@.subrange(0, n as int) =~= ds@);
            },
            _ => {
                assert(pair_views(out@) =~= start + Seq::<(Seq<char>, Seq<char>)>::empty());
            },
        },
        _ => {
            assert(pair_views(out@) =~= start + Seq::<(Seq<char>, Seq<char>)>::empty());
        },
    }
}

impl ProjectSignature {
    /// Reads the dependencies and development dependencies of a `package.json` value; a
    /// project depending on `next` is a Next.js project with the app router.
    pub fn analyze_npm_package(package_json: &JsonValue, signature: ProjectSignature) -> (r: ProjectSignature)
        ensures
            pair_views(r.dependencies@) == pair_views(signature.dependencies@) + manifest_deps(*package_json, "dependencies"@),
            pair_views(r.dev_dependencies@) == pair_views(signature.dev_dependencies@) + manifest_deps(
                *package_json,
                "devDependencies"@,
            ),
            (has_dep(r.dependencies@, "next"@) || has_dep(r.dev_dependencies@, "next"@)) ==> r.framework@
                == "Next.js"@ && views(r.features@) == views(signature.features@).push("app-router"@),
            !(has_dep(r.dependencies@, "next"@) || has_dep(r.dev_dependencies@, "next"@)) ==> r.framework
                == signature.framework && r.features == signature.features,
            r.language == signature.language,
            r.package_manager == signature.package_manager,
    {
        let mut s = signature;
        deps_from(package_json, "dependencies", &mut s.dependencies);
        deps_from(package_json, "devDependencies", &mut s.dev_dependencies);
        if has_dependency(&s.dependencies, "next") || has_dependency(&s.dev_dependencies, "next") {
            s.framework = "Next.js".to_string();
            s.features.push("app-router".to_string());
        }
        s
    }

    /// Reads `name = "version"` lines of a `Cargo.toml` text: each line that is not a
    /// section header and splits around one " = " into a name and a version.
    pub fn analyze_rust_package(cargo_toml: &str, signature: ProjectSignature) -> (r: ProjectSignature)
        ensures
            pair_views(r.dependencies@) == pair_views(signature.dependencies@) + cargo_deps(lines_spec(cargo_toml@)),
            r.language == signature.language,
            r.framework == signature.framework,
            r.package_manager == signature.package_manager,
    {
        let mut s = signature;
        let ghost start = pair_views(s.dependencies@);
        let lines = lines(cargo_toml);
        let ghost ls = views(lines@);
        let n = lines.len();
        let mut i: usize = 0;
        while i < n
            invariant
                n == lines.len(),
                ls == views(lines@),
                i <= n,
                pair_views(s.dependencies@) == start + cargo_deps(ls.subrange(0, i as int)),
                s.language == signature.language,
                s.framework == signature.framework,
                s.package_manager == signature.package_manager,
            decreases n - i,
        {
            assert(ls.subrange(0, i + 1).drop_last() =~= ls.subrange(0, i as int));
            assert(ls.subrange(0, i + 1).last() == lines@[i as int]@);
            let line = lines[i].as_str();
            match cargo_line(line) {
                Some(pair) => {
                    s.dependencies.push(pair);
                    assert(pair_views(s.dependencies@) =~= start + cargo_deps(ls.subrange(0, i + 1)));
                },
                None => {},
            }
            i = i + 1;
        }
        assert(ls.subrange(0, n as int) =~= ls);
        s
    }
}

/// Whether a line opens a section: it starts with `[` once trimmed.
pub open spec fn is_section(line: Seq<char>) -> bool {
    trim_spec(line).len() > 0 && trim_spec(line)[0] == '['
}

/// The dependency a `Cargo.toml` line declares, if any.
pub open spec fn cargo_pair(line: Seq<char>) -> Option<(Seq<char>, Seq<char>)> {
    if is_section(line) || !has_infix(line, " = "@) || split_spec(line, " = "@).len() != 2 {
        None
    } else {
        let parts = split_spec(line, " = "@);
        Some((
            strip_prefixes(strip_suffixes(trim_spec(parts[0]), "\""@), "\""@),
            strip_suffixes(strip_prefixes(trim_spec(parts[1]), "\""@), "\""@),
        ))
    }
}

/// The dependencies the lines declare, in order.
pub open spec fn cargo_deps(lines: Seq<Seq<char>>) -> Seq<(Seq<char>, Seq<char>)>
    decreases lines.len(),
{
    if lines.len() == 0 {
        seq![]
    } else {
        match cargo_pair(lines.last()) {
            Some(p) => cargo_deps(lines.drop_last()).push(p),
            None => cargo_deps(lines.drop_last()),
        }
    }
}

fn cargo_line(line: &str) -> (r: Option<(String, String)>)
    ensures
        match r {
            Some(p) => cargo_pair(line@) == Some((p.0@, p.1@)),
            None => cargo_pair(line@) is None,
        },
{
    proof {
        reveal_strlit("\"");
        reveal_strlit(" = ");
    }
    let t = trim(line);
    if t.unicode_len() > 0 && t.get_char(0) == '[' {
        return None;
    }
    if !contains_str(line, " = ") {
        return None;
    }
    let parts = split_str(line, " = ");
    if parts.len() != 2 {
        return None;
    }
    assert(parts@[0]@ == split_spec(line@, " = "@)[0]);
    assert(parts@[1]@ == split_spec(line@, " = "@)[1]);
    let name = trim_start_matches(trim_end_matches(trim(parts[0].as_str()), "\""), "\"");
    let version = trim_end_matches(trim_start_matches(trim(parts[1].as_str()), "\""), "\"");
    Some((name.to_string(), version.to_string()))
}


/// The language suggested by the source files present.
pub open spec fn language_from(present: Seq<Seq<char>>) -> Seq<char> {
    if present.contains("src/*.ts"@) || present.contains("lib/*.ts"@) || present.contains("src/*.tsx"@)
        || present.contains("lib/*.tsx"@) {
        "typescript"@
    } else if present.contains("src/*.rs"@) || present.contains("lib/*.rs"@) {
        "rust"@
    } else if present.contains("src/*.py"@) || present.contains("lib/*.py"@) {
        "python"@
    } else {
        "unknown"@
    }
}

/// The language suggested by the source files present.
pub fn detect_language_from_files(facts: &ProjectFacts) -> (r: String)
    ensures
        r@ == language_from(views(facts.present@)),
{
    let p = &facts.present;
    if contains_text(p, "src/*.ts") || contains_text(p, "lib/*.ts") || contains_text(p, "src/*.tsx")
        || contains_text(p, "lib/*.tsx") {
        "typescript".to_string()
    } else if contains_text(p, "src/*.rs") || contains_text(p, "lib/*.rs") {
        "rust".to_string()
    } else if contains_text(p, "src/*.py") || contains_text(p, "lib/*.py") {
        "python".to_string()
    } else {
        "unknown".to_string()
    }
}

/// The text of an optional manifest, empty when it could not be read.
pub open spec fn text_or_empty(t: Option<String>) -> Seq<char> {
    match t {
        Some(x) => x@,
        None => seq![],
    }
}

/// The framework suggested by the language and the project's files.
pub open spec fn framework_from(language: Seq<char>, present: Seq<Seq<char>>, cargo: Seq<char>) -> Seq<char> {
    if language == "typescript"@ {
        if present.contains("next.config.js"@) || present.contains("next.config.mjs"@) {
            "Next.js"@
        } else if present.contains("vite.config.ts"@) {
            "Vite + React"@
        } else if present.contains("app"@) {
            "Next.js App Router"@
        } else {
            "React"@
        }
    } else if language == "rust"@ {
        if present.contains("Cargo.toml"@) {
            if has_infix(cargo, "actix-web"@) || has_infix(cargo, "axum"@) {
                "Rust Web"@
            } else {
                "Rust CLI"@
            }
        } else {
            "unknown"@
        }
    } else {
        "unknown"@
    }
}

/// The framework suggested by the language and the project's files.
pub fn detect_framework(language: &str, facts: &ProjectFacts) -> (r: String)
    ensures
        r@ == framework_from(language@, views(facts.present@), text_or_empty(facts.cargo_toml)),
{
    proof {
        reveal_strlit("typescript");
        reveal_strlit("rust");
        reveal_strlit("actix-web");
        reveal_strlit("axum");
    }
    assert(!has_infix(Seq::<char>::empty(), "actix-web"@));
    assert(!has_infix(Seq::<char>::empty(), "axum"@));
    let p = &facts.present;
    if same_text(language, "typescript") {
        if contains_text(p, "next.config.js") || contains_text(p, "next.config.mjs") {
            "Next.js".to_string()
        } else if contains_text(p, "vite.config.ts") {
            "Vite + React".to_string()
        } else if contains_text(p, "app") {
            "Next.js App Router".to_string()
        } else {
            "React".to_string()
        }
    } else if same_text(language, "rust") {
        if contains_text(p, "Cargo.toml") {
            let web = match &facts.cargo_toml {
                Some(t) => contains_str(t.as_str(), "actix-web") || contains_str(t.as_str(), "axum"),
                None => false,
            };
            if web {
                "Rust Web".to_string()
            } else {
                "Rust CLI".to_string()
            }
        } else {
            "unknown".to_string()
        }
    } else {
        "unknown".to_string()
    }
}

/// The styling systems suggested by the dependencies and the project's files.
pub open spec fn styling_from(deps: Seq<(String, String)>, present: Seq<Seq<char>>) -> Seq<Seq<char>> {
    one_if(has_dep(deps, "tailwindcss"@) || present.contains("tailwind.config.js"@), "Tailwind CSS"@)
        + one_if(has_dep(deps, "styled-components"@), "Styled Components"@)
        + one_if(has_dep(deps, "emotion"@), "Emotion"@)
        + one_if(has_dep(deps, "sass"@) || has_dep(deps, "node-sass"@), "Sass/SCSS"@)
        + one_if(has_dep(deps, "css-modules"@), "CSS Modules"@)
        + one_if(present.contains("styles"@) || present.contains("src/styles"@), "CSS"@)
}

/// The styling systems suggested by the dependencies and the project's files.
pub fn detect_styling(dependencies: &Vec<(String, String)>, facts: &ProjectFacts) -> (r: Vec<String>)
    ensures
        views(r@) == styling_from(dependencies@, views(facts.present@)),
{
    let d = dependencies;
    let p = &facts.present;
    let mut s: Vec<String> = Vec::new();
    push_when(&mut s, has_dependency(d, "tailwindcss") || contains_text(p, "tailwind.config.js"), "Tailwind CSS");
    push_when(&mut s, has_dependency(d, "styled-components"), "Styled Components");
    push_when(&mut s, has_dependency(d, "emotion"), "Emotion");
    push_when(&mut s, has_dependency(d, "sass") || has_dependency(d, "node-sass"), "Sass/SCSS");
    push_when(&mut s, has_dependency(d, "css-modules"), "CSS Modules");
    push_when(&mut s, contains_text(p, "styles") || contains_text(p, "src/styles"), "CSS");
    s
}

/// Each string of `v` with `prefix` before it.
pub open spec fn prefixed_all(prefix: Seq<char>, v: Seq<Seq<char>>) -> Seq<Seq<char>> {
    v.map_values(|x: Seq<char>| prefix + x)
}

/// `prefix` before the optional value, as a list of at most one entry.
pub open spec fn labelled(prefix: Seq<char>, v: Option<String>) -> Seq<Seq<char>> {
    match v {
        Some(x) => seq![prefix + x@],
        None => seq![],
    }
}

/// The features suggested by the signature's language and framework, by the project's
/// files, and by the libraries and styling detected.
pub open spec fn features_from(s: ProjectSignature, present: Seq<Seq<char>>) -> Seq<Seq<char>> {
    (if s.language@ == "typescript"@ {
        seq!["TypeScript"@] + one_if(present.contains("tsconfig.json"@), "Strict Type Checking"@)
    } else {
        seq![]
    }) + (if s.framework@ == "Next.js"@ {
        seq!["Server-Side Rendering"@, "Static Site Generation"@] + (if present.contains("app"@) {
            seq!["App Router"@]
        } else if present.contains("pages"@) {
            seq!["Pages Router"@]
        } else {
            seq![]
        })
    } else if s.framework@ == "React"@ {
        seq!["Client-Side Rendering"@]
    } else {
        seq![]
    }) + labelled("UI: "@, s.ui_library) + labelled("Validation: "@, s.validation_library) + labelled(
        "Auth: "@,
        s.auth_library,
    ) + prefixed_all("Styling: "@, views(s.styling@))
}

fn push_labelled(v: &mut Vec<String>, prefix: &str, x: &Option<String>)
    ensures
        views(final(v)@) == views(old(v)@) + labelled(prefix@, *x),
{
    match x {
        Some(s) => v.push(prefixed(prefix, s.as_str())),
        None => {},
    }
    assert(views(final(v)@) =~= views(old(v)@) + labelled(prefix@, *x));
}

fn base_features(signature: &ProjectSignature, facts: &ProjectFacts) -> (r: Vec<String>)
    ensures
        views(r@) == (if signature.language@ == "typescript"@ {
            seq!["TypeScript"@] + one_if(views(facts.present@).contains("tsconfig.json"@), "Strict Type Checking"@)
        } else {
            seq![]
        }) + (if signature.framework@ == "Next.js"@ {
            seq!["Server-Side Rendering"@, "Static Site Generation"@] + (if views(facts.present@).contains("app"@) {
                seq!["App Router"@]
            } else if views(facts.present@).contains("pages"@) {
                seq!["Pages Router"@]
            } else {
                seq![]
            })
        } else if signature.framework@ == "React"@ {
            seq!["Client-Side Rendering"@]
        } else {
            seq![]
        }),
{
    proof {
        reveal_strlit("typescript");
        reveal_strlit("Next.js");
        reveal_strlit("React");
    }
    let p = &facts.present;
    let mut f: Vec<String> = Vec::new();
    if same_text(signature.language.as_str(), "typescript") {
        f.push("TypeScript".to_string());
        push_when(&mut f, contains_text(p, "tsconfig.json"), "Strict Type Checking");
    }
    let ghost first = views(f@);
    if same_text(signature.framework.as_str(), "Next.js") {
        f.push("Server-Side Rendering".to_string());
        f.push("Static Site Generation".to_string());
        if contains_text(p, "app") {
            f.push("App Router".to_string());
        } else if contains_text(p, "pages") {
            f.push("Pages Router".to_string());
        }
    } else if same_text(signature.framework.as_str(), "React") {
        f.push("Client-Side Rendering".to_string());
    }
    assert(views(f@) =~= first + (if signature.framework@ == "Next.js"@ {
        seq!["Server-Side Rendering"@, "Static Site Generation"@] + (if views(facts.present@).contains("app"@) {
            seq!["App Router"@]
        } else if views(facts.present@).contains("pages"@) {
            seq!["Pages Router"@]
        } else {
            seq![]
        })
    } else if signature.framework@ == "React"@ {
        seq!["Client-Side Rendering"@]
    } else {
        seq![]
    }));
    f
}

/// The features suggested by the signature and the project's files.
pub fn detect_features(facts: &ProjectFacts, signature: &ProjectSignature) -> (r: Vec<String>)
    ensures
        views(r@) == features_from(*signature, views(facts.present@)),
{
    let mut f = base_features(signature, facts);
    push_labelled(&mut f, "UI: ", &signature.ui_library);
    push_labelled(&mut f, "Validation: ", &signature.validation_library);
    push_labelled(&mut f, "Auth: ", &signature.auth_library);
    let ghost start = views(f@);
    let n = signature.styling.len();
    let mut i: usize = 0;
    while i < n
        invariant
            n == signature.styling.len(),
            i <= n,
            views(f@) == start + prefixed_all("Styling: "@, views(signature.styling@).take(i as int)),
        decreases n - i,
    {
        f.push(prefixed("Styling: ", signature.styling[i].as_str()));
        assert(prefixed_all("Styling: "@, views(signature.styling@).take(i + 1)) =~= prefixed_all(
            "Styling: "@,
            views(signature.styling@).take(i as int),
        ).push("Styling: "@ + signature.styling@[i as int]@));
        assert(views(f@) =~= start + prefixed_all("Styling: "@, views(signature.styling@).take(i + 1)));
        i = i + 1;
    }
    assert(views(signature.styling@).take(n as int) =~= views(signature.styling@));
    f
}

/// Decodes the text of a `package.json`; `None` when it is not valid JSON.
pub fn parse_package_json(content: &str) -> (r: Option<JsonValue>)
    ensures
        r == json_of(content@),
{
    parse_json(content)
}

/// Whether a package manager reads `package.json`.
pub open spec fn is_node_manager(pm: Seq<char>) -> bool {
    pm == "npm"@ || pm == "yarn"@ || pm == "pnpm"@
}

impl ProjectSignature {
    /// Detects a project's signature from what was read of its directory: the package
    /// manager and its manifest's dependencies, then the language, framework, styling and
    /// features.
    pub fn detect(facts: &ProjectFacts) -> (r: ProjectSignature)
        ensures
            opt_str(Some(r.package_manager)) == match package_manager_of(views(facts.present@)) {
                Some(pm) => Some(pm),
                None => Some(Seq::<char>::empty()),
            },
            r.language@ == language_from(views(facts.present@)),
            r.framework@ == framework_from(r.language@, views(facts.present@), text_or_empty(facts.cargo_toml)),
            views(r.styling@) == styling_from(r.dependencies@, views(facts.present@)),
            views(r.features@) == features_from(r, views(facts.present@)),
            r.ui_library is None,
            r.validation_library is None,
            r.auth_library is None,
            package_manager_of(views(facts.present@)) == Some("cargo"@) && facts.cargo_toml is Some
                ==> pair_views(r.dependencies@) == cargo_deps(lines_spec(text_or_empty(facts.cargo_toml))),
            (match package_manager_of(views(facts.present@)) {
                Some(pm) => is_node_manager(pm),
                None => false,
            }) && facts.package_json is Some && json_of(text_or_empty(facts.package_json)) is Some
                ==> pair_views(r.dependencies@) == manifest_deps(
                json_of(text_or_empty(facts.package_json))->Some_0,
                "dependencies"@,
            ),
    {
        let mut signature = ProjectSignature::empty();
        match detect_package_manager(facts) {
            Some(pm) => {
                let node = same_text(pm.as_str(), "npm") || same_text(pm.as_str(), "yarn") || same_text(
                    pm.as_str(),
                    "pnpm",
                );
                let cargo = same_text(pm.as_str(), "cargo");
                proof {
                    reveal_strlit("npm");
                    reveal_strlit("yarn");
                    reveal_strlit("pnpm");
                    reveal_strlit("cargo");
                    assert("cargo"@.len() == 5);
                    assert("npm"@.len() == 3);
                    assert("yarn"@.len() == 4);
                    assert("pnpm"@.len() == 4);
                }
                assert(package_manager_of(views(facts.present@)) == Some("cargo"@) ==> cargo && !node);
                signature.package_manager = pm;
                if node {
                    match &facts.package_json {
                        Some(text) => match parse_json(text.as_str()) {
                            Some(v) => {
                                let ghost before = pair_views(signature.dependencies@);
                                signature = ProjectSignature::analyze_npm_package(&v, signature);
                                assert(before =~= Seq::<(Seq<char>, Seq<char>)>::empty());
                                assert(pair_views(signature.dependencies@) =~= manifest_deps(v, "dependencies"@));
                            },
                            None => {},
                        },
                        None => {},
                    }
                } else if cargo {
                    match &facts.cargo_toml {
                        Some(text) => {
                            let ghost before = pair_views(signature.dependencies@);
                            signature = ProjectSignature::analyze_rust_package(text.as_str(), signature);
                            assert(before =~= Seq::<(Seq<char>, Seq<char>)>::empty());
                            assert(pair_views(signature.dependencies@) =~= cargo_deps(lines_spec(text@)));
                        },
                        None => {},
                    }
                }
            },
            None => {},
        }
        signature.language = detect_language_from_files(facts);
        signature.framework = detect_framework(signature.language.as_str(), facts);
        signature.styling = detect_styling(&signature.dependencies, facts);
        signature.ui_library = None;
        signature.validation_library = None;
        signature.auth_library = None;
        let features = detect_features(facts, &signature);
        signature.features = features;
        signature
    }
}

} // verus!
