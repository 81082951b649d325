use vstd::prelude::*;

use crate::json::{decode_reply, get_member, member, reply_json, JsonValue};
use crate::text::{contains_str, has_infix, join, joined, same_text, sort_dedup, sorted_dedup_of};

verus! {

broadcast use vstd::seq::Seq::lemma_push_map_commute;

/// Coding conventions found in code samples.
pub struct StyleAnalysis {
    /// Naming conventions: "camelCase", "PascalCase", "snake_case".
    pub naming_convention: Vec<String>,
    /// Programming patterns: "Functional programming", "Hooks-based React", ...
    pub patterns: Vec<String>,
    /// Error-handling styles: "Result<T, E>", "try/catch", ...
    pub error_handling: Vec<String>,
    /// Representative code samples.
    pub code_samples: Vec<String>,
}

/// The views of a sequence of strings.
pub open spec fn texts(v: Seq<String>) -> Seq<Seq<char>> {
    v.map_values(|s: String| s@)
}

/// The most samples an analysis keeps.
pub const KEPT_SAMPLES: usize = 3;

/// The samples an analysis keeps: the first `KEPT_SAMPLES`.
pub open spec fn kept_samples(samples: Seq<Seq<char>>) -> Seq<Seq<char>> {
    if samples.len() > KEPT_SAMPLES {
        samples.take(KEPT_SAMPLES as int)
    } else {
        samples
    }
}

/// The naming conventions suggested by the combined code, before sorting.
pub open spec fn naming_candidates(code: Seq<char>) -> Seq<Seq<char>> {
    let a: Seq<Seq<char>> = if has_infix(code, "camelCase"@) || (has_infix(code, "const "@) && has_infix(code, " = "@)) {
        seq!["camelCase"@]
    } else {
        seq![]
    };
    let b: Seq<Seq<char>> = if has_infix(code, "PascalCase"@) || has_infix(code, "class "@) || has_infix(code, "function "@) {
        seq!["PascalCase"@]
    } else {
        seq![]
    };
    let c: Seq<Seq<char>> = if has_infix(code, "snake_case"@) || has_infix(code, "_"@) {
        seq!["snake_case"@]
    } else {
        seq![]
    };
    a + b + c
}

/// `seq![item]` when `cond` holds, else empty.
pub open spec fn when(cond: bool, item: Seq<char>) -> Seq<Seq<char>> {
    if cond {
        seq![item]
    } else {
        seq![]
    }
}

/// Whether the language is one of the JavaScript family.
pub open spec fn is_js_family(language: Seq<char>) -> bool {
    language == "TypeScript"@ || language == "JavaScript"@ || language == "TSX"@
}

/// The programming patterns suggested by the combined code, before sorting.
pub open spec fn pattern_candidates(code: Seq<char>, language: Seq<char>) -> Seq<Seq<char>> {
    if is_js_family(language) {
        when(has_infix(code, "useState"@) || has_infix(code, "useEffect"@), "Hooks-based React"@)
            + when(has_infix(code, "=>"@), "Functional programming"@)
            + when(has_infix(code, "class "@) && has_infix(code, "extends"@), "OOP"@)
    } else if language == "Rust"@ {
        when(has_infix(code, "impl "@) && has_infix(code, "trait"@), "Trait-based"@)
            + when(has_infix(code, "struct "@), "Struct-based"@)
    } else if language == "Python"@ {
        when(has_infix(code, "def "@), "Function-based"@) + when(has_infix(code, "class "@), "OOP"@)
    } else {
        seq![]
    }
}

/// The error-handling styles suggested by the combined code, before sorting.
pub open spec fn error_candidates(code: Seq<char>, language: Seq<char>) -> Seq<Seq<char>> {
    if is_js_family(language) {
        when(has_infix(code, "try"@) && has_infix(code, "catch"@), "try/catch"@)
    } else if language == "Rust"@ {
        when(has_infix(code, "Result<"@), "Result<T, E>"@) + when(has_infix(code, "Option<"@), "Option<T>"@)
    } else if language == "Python"@ {
        when(has_infix(code, "try:"@) && has_infix(code, "except"@), "try/except"@)
    } else {
        seq![]
    }
}

/// The strings among `xs`, in order; other values are skipped.
pub open spec fn strings_in(xs: Seq<JsonValue>) -> Seq<Seq<char>>
    decreases xs.len(),
{
    if xs.len() == 0 {
        seq![]
    } else {
        match xs.last() {
            JsonValue::Str(s) => strings_in(xs.drop_last()).push(s@),
            _ => strings_in(xs.drop_last()),
        }
    }
}

/// The strings of list member `key` of `v`; empty when it is absent or not a list.
pub open spec fn string_list(v: JsonValue, key: Seq<char>) -> Seq<Seq<char>> {
    match v {
        JsonValue::Object(ms) => match member(ms@, key) {
            Some(JsonValue::Array(xs)) => strings_in(xs@),
            _ => seq![],
        },
        _ => seq![],
    }
}

fn push_if(v: &mut Vec<String>, cond: bool, item: &str)
    ensures
        texts(final(v)@) == texts(old(v)@) + when(cond, item@),
{
    if cond {
        v.push(item.to_string());
    }
    assert(texts(final(v)@) =~= texts(old(v)@) + when(cond, item@));
}

fn first_samples(samples: &[String]) -> (r: Vec<String>)
    ensures
        texts(r@) == kept_samples(texts(samples@)),
{
    let n = if samples.len() > KEPT_SAMPLES { KEPT_SAMPLES } else { samples.len() };
    let mut out: Vec<String> = Vec::new();
    let mut i: usize = 0;
    while i < n
        invariant
            n <= samples@.len(),
            n == samples@.len() || n == KEPT_SAMPLES,
            i <= n,
            texts(out@) == texts(samples@).take(i as int),
        decreases n - i,
    {
        out.push(samples[i].clone());
        assert(texts(out@) =~= texts(samples@).take(i + 1));
        i = i + 1;
    }
    assert(texts(samples@).take(n as int) =~= kept_samples(texts(samples@)));
    out
}

fn strings_from(xs: &Vec<JsonValue>) -> (r: Vec<String>)
    ensures
        texts(r@) == strings_in(xs@),
{
    let mut out: Vec<String> = Vec::new();
    let n = xs.len();
    let mut i: usize = 0;
    while i < n
        invariant
            n == xs.len(),
            i <= n,
            texts(out@) == strings_in(xs@.subrange(0, i as int)),
        decreases n - i,
    {
        assert(xs@.subrange(0, i + 1).drop_last() =~= xs@.subrange(0, i as int));
        assert(xs@.subrange(0, i + 1).last() == xs@[i as int]);
        match &xs[i] {
            JsonValue::Str(s) => {
                out.push(s.clone());
            },
            _ => {},
        }
        i = i + 1;
    }
    assert(xs@.subrange(0, n as int) =~= xs@);
    out
}

fn string_list_from(v: &JsonValue, key: &str) -> (r: Vec<String>)
    ensures
        texts(r@) == string_list(*v, key@),
{
    match v {
        JsonValue::Object(_) => match get_member(v, key) {
            Some(JsonValue::Array(xs)) => strings_from(xs),
            _ => Vec::new(),
        },
        _ => Vec::new(),
    }
}

/// Extracts coding patterns and style conventions from code samples.
pub struct StyleAnalyzer;

impl StyleAnalyzer {
    pub fn new() -> (r: StyleAnalyzer) {
        StyleAnalyzer
    }

    /// Pattern-based analysis of the samples, joined by newlines: each list sorted by
    /// bytes without repeats, and the first `KEPT_SAMPLES` samples kept.
    pub fn analyze_patterns(&self, code_samples: &[String], language: &str) -> (r: StyleAnalysis)
        ensures
            sorted_dedup_of(
                texts(r.naming_convention@),
                naming_candidates(joined(texts(code_samples@), "\n"@)),
            ),
            sorted_dedup_of(
                texts(r.patterns@),
                pattern_candidates(joined(texts(code_samples@), "\n"@), language@),
            ),
            sorted_dedup_of(
                texts(r.error_handling@),
                error_candidates(joined(texts(code_samples@), "\n"@), language@),
            ),
            texts(r.code_samples@) == kept_samples(texts(code_samples@)),
    {
        proof {
            reveal_strlit("TypeScript");
            reveal_strlit("JavaScript");
            reveal_strlit("TSX");
            reveal_strlit("Rust");
            reveal_strlit("Python");
        }
        let combined = join(code_samples, "\n");
        let c = combined.as_str();
        let mut naming: Vec<String> = Vec::new();
        push_if(&mut naming, contains_str(c, "camelCase") || (contains_str(c, "const ") && contains_str(c, " = ")), "camelCase");
        push_if(&mut naming, contains_str(c, "PascalCase") || contains_str(c, "class ") || contains_str(c, "function "), "PascalCase");
        push_if(&mut naming, contains_str(c, "snake_case") || contains_str(c, "_"), "snake_case");
        let mut patterns: Vec<String> = Vec::new();
        let mut errors: Vec<String> = Vec::new();
        if same_text(language, "TypeScript") || same_text(language, "JavaScript") || same_text(language, "TSX") {
            push_if(&mut patterns, contains_str(c, "useState") || contains_str(c, "useEffect"), "Hooks-based React");
            push_if(&mut patterns, contains_str(c, "=>"), "Functional programming");
            push_if(&mut patterns, contains_str(c, "class ") && contains_str(c, "extends"), "OOP");
            push_if(&mut errors, contains_str(c, "try") && contains_str(c, "catch"), "try/catch");
        } else if same_text(language, "Rust") {
            push_if(&mut errors, contains_str(c, "Result<"), "Result<T, E>");
            push_if(&mut errors, contains_str(c, "Option<"), "Option<T>");
            push_if(&mut patterns, contains_str(c, "impl ") && contains_str(c, "trait"), "Trait-based");
            push_if(&mut patterns, contains_str(c, "struct "), "Struct-based");
        } else if same_text(language, "Python") {
            push_if(&mut patterns, contains_str(c, "def "), "Function-based");
            push_if(&mut patterns, contains_str(c, "class "), "OOP");
            push_if(&mut errors, contains_str(c, "try:") && contains_str(c, "except"), "try/except");
        }
        assert(texts(naming@) =~= naming_candidates(combined@));
        assert(texts(patterns@) =~= pattern_candidates(combined@, language@));
        assert(texts(errors@) =~= error_candidates(combined@, language@));
        StyleAnalysis {
            naming_convention: sort_dedup(naming),
            patterns: sort_dedup(patterns),
            error_handling: sort_dedup(errors),
            code_samples: first_samples(code_samples),
        }
    }

    /// The analysis a model reply carries: its three lists, keeping their strings; when
    /// the reply is not JSON, the pattern-based analysis.
    pub fn analysis_from_reply(&self, reply: &str, code_samples: &[String], language: &str) -> (r: StyleAnalysis)
        ensures
            reply_json(reply@) is Some ==> ({
                let v = reply_json(reply@)->Some_0;
                &&& texts(r.naming_convention@) == string_list(v, "naming_convention"@)
                &&& texts(r.patterns@) == string_list(v, "patterns"@)
                &&& texts(r.error_handling@) == string_list(v, "error_handling"@)
                &&& texts(r.code_samples@) == kept_samples(texts(code_samples@))
            }),
            reply_json(reply@) is None ==> sorted_dedup_of(
                texts(r.patterns@),
                pattern_candidates(joined(texts(code_samples@), "\n"@), language@),
            ),
    {
        match decode_reply(reply) {
            Some(v) => StyleAnalysis {
                naming_convention: string_list_from(&v, "naming_convention"),
                patterns: string_list_from(&v, "patterns"),
                error_handling: string_list_from(&v, "error_handling"),
                code_samples: first_samples(code_samples),
            },
            None => self.analyze_patterns(code_samples, language),
        }
    }

    /// The analysis's naming conventions, patterns and error-handling styles, in order.
    pub fn to_tags(&self, analysis: &StyleAnalysis) -> (r: Vec<String>)
        ensures
            texts(r@) == texts(analysis.naming_convention@) + texts(analysis.patterns@) + texts(
                analysis.error_handling@,
            ),
    {
        let mut tags: Vec<String> = Vec::new();
        append_all(&mut tags, &analysis.naming_convention);
        append_all(&mut tags, &analysis.patterns);
        append_all(&mut tags, &analysis.error_handling);
        tags
    }
}

fn append_all(out: &mut Vec<String>, items: &Vec<String>)
    ensures
        texts(final(out)@) == texts(old(out)@) + texts(items@),
{
    let ghost start = texts(out@);
    let n = items.len();
    let mut i: usize = 0;
    while i < n
        invariant
            n == items.len(),
            i <= n,
            texts(out@) == start + texts(items@).take(i as int),
        decreases n - i,
    {
        out.push(items[i].clone());
        assert(texts(out@) =~= start + texts(items@).take(i + 1));
        i = i + 1;
    }
    assert(texts(items@).take(n as int) =~= texts(items@));
}

} // verus!
