use vstd::prelude::*;

use crate::json::{decode_reply, get_member, get_str_member, member, reply_json, str_member, JsonValue};
use crate::text::{contains_str, has_infix, join, joined, replace_all, replace_spec, same_text};
use crate::workers::MiowError;

verus! {

broadcast use vstd::seq::Seq::lemma_push_map_commute;

/// One symbol found by a search backend.
pub struct SymbolMatch {
    pub name: String,
    pub kind: String,
    pub file_path: String,
}

impl SymbolMatch {
    /// A field-for-field copy.
    pub fn copy(&self) -> (r: SymbolMatch)
        ensures
            r == *self,
    {
        SymbolMatch { name: self.name.clone(), kind: self.kind.clone(), file_path: self.file_path.clone() }
    }
}

#[derive(Debug, Clone, Copy, PartialEq, Eq, Structural)]
pub enum Priority {
    /// Must be found.
    Critical,
    /// Should be found.
    High,
    /// Nice to have.
    Medium,
}

/// A factual question about the codebase, with the query that searches for it.
pub struct CriticalQuestion {
    pub question: String,
    pub search_query: String,
    /// What kind of code element is expected: "component", "function", "type", ...
    pub expected_type: String,
    pub priority: Priority,
}

/// The model's judgement of whether search results answer a question.
pub struct VerificationResult {
    pub is_correct: bool,
    pub reason: String,
    /// A suggested reformulation.
    pub suggestion: Option<String>,
}

/// Confidence of an answer the model confirmed, in percent.
pub const FOUND_CONFIDENCE: u8 = 100;

/// Confidence of an answer the model never confirmed, in percent.
pub const PARTIAL_CONFIDENCE: u8 = 50;

/// Symbols that answer a question, with a confidence in percent.
pub struct QuestionAnswer {
    pub question: String,
    pub symbols: Vec<SymbolMatch>,
    pub confidence_percent: u8,
}

/// The outcome of one question.
pub enum QuestionResult {
    Found(Vec<QuestionAnswer>),
    NotFound,
    PartiallyFound(Vec<QuestionAnswer>),
}

/// What the loop does once a search has returned.
pub enum SearchStep {
    /// Nothing was found and attempts remain: reformulate, then search again.
    Reformulate,
    /// Something was found: ask the model whether it answers the question.
    Verify,
    /// The loop is over.
    Finish(QuestionResult),
}

/// What the loop does once the model has judged the results.
pub enum VerifyStep {
    /// Not confirmed and attempts remain: reformulate, then search again.
    Reformulate,
    /// The loop is over.
    Finish(QuestionResult),
}

/// Whether some match of `s` has the name and file path of `m`.
pub open spec fn match_in(s: Seq<SymbolMatch>, m: SymbolMatch) -> bool {
    exists|i: int| 0 <= i < s.len() && s[i].name@ == m.name@ && s[i].file_path@ == m.file_path@
}

/// `s` with each match whose name and file path an earlier match has removed (first
/// occurrence wins).
pub open spec fn unique_matches(s: Seq<SymbolMatch>) -> Seq<SymbolMatch>
    decreases s.len(),
{
    if s.len() == 0 {
        s
    } else {
        let r = unique_matches(s.drop_last());
        if match_in(r, s.last()) {
            r
        } else {
            r.push(s.last())
        }
    }
}

/// The similarity results, then the graph results, without repeats by name and file
/// path: on a conflict the earlier result, so a similarity result, wins.
pub open spec fn merged(similar: Seq<SymbolMatch>, graph: Seq<SymbolMatch>) -> Seq<SymbolMatch> {
    unique_matches(similar + graph)
}

/// The verification a reply carries: an object with a boolean `is_correct`, a string
/// `reason`, and a `suggestion` that is a string, null or absent.
pub open spec fn verification_of(j: Option<JsonValue>) -> Option<(bool, Seq<char>, Option<Seq<char>>)> {
    match j {
        Some(JsonValue::Object(ms)) => match (member(ms@, "is_correct"@), member(ms@, "reason"@), member(
            ms@,
            "suggestion"@,
        )) {
            (Some(JsonValue::Bool(b)), Some(JsonValue::Str(r)), None) => Some((b, r@, None)),
            (Some(JsonValue::Bool(b)), Some(JsonValue::Str(r)), Some(JsonValue::Null)) => Some((b, r@, None)),
            (Some(JsonValue::Bool(b)), Some(JsonValue::Str(r)), Some(JsonValue::Str(s))) => Some((b, r@, Some(s@))),
            _ => None,
        },
        _ => None,
    }
}

/// The reason given when a verification reply cannot be decoded.
pub open spec fn undecoded_reason() -> Seq<char> {
    "Failed to parse verification response"@
}

/// The view of a verification result.
pub open spec fn verification_view(v: VerificationResult) -> (bool, Seq<char>, Option<Seq<char>>) {
    (v.is_correct, v.reason@, match v.suggestion {
        Some(s) => Some(s@),
        None => None,
    })
}

/// The verification a reply yields; fail-open when it cannot be decoded: correct exactly
/// when there were results.
pub open spec fn verification_from(reply: Seq<char>, has_results: bool) -> (bool, Seq<char>, Option<Seq<char>>) {
    match verification_of(reply_json(reply)) {
        Some(v) => v,
        None => (has_results, undecoded_reason(), None),
    }
}

/// The query used when a reformulation reply cannot be used: the name "User" widened
/// to "UserModel" where it occurs, else the query prefixed by the expected type.
pub open spec fn heuristic_query(query: Seq<char>, expected_type: Seq<char>) -> Seq<char> {
    if has_infix(query, "User"@) {
        replace_spec(query, "User"@, "UserModel"@)
    } else {
        expected_type + " "@ + query
    }
}

/// The reformulated query: the reply's `new_query` when it has one, else the heuristic.
pub open spec fn reformulated(reply: Seq<char>, query: Seq<char>, expected_type: Seq<char>) -> Seq<char> {
    match reply_json(reply) {
        Some(v) => match str_member(v, "new_query"@) {
            Some(q) => q,
            None => heuristic_query(query, expected_type),
        },
        None => heuristic_query(query, expected_type),
    }
}

/// The answers of the found and partially found results, in order.
pub open spec fn answers_of(rs: Seq<QuestionResult>) -> Seq<QuestionAnswer>
    decreases rs.len(),
{
    if rs.len() == 0 {
        seq![]
    } else {
        answers_of(rs.drop_last()) + match rs.last() {
            QuestionResult::Found(a) => a@,
            QuestionResult::PartiallyFound(a) => a@,
            QuestionResult::NotFound => seq![],
        }
    }
}

fn has_match(s: &Vec<SymbolMatch>, m: &SymbolMatch) -> (r: bool)
    ensures
        r == match_in(s@, *m),
{
    let n = s.len();
    let mut i: usize = 0;
    while i < n
        invariant
            n == s.len(),
            i <= n,
            forall|j: int| 0 <= j < i ==> !(s@[j].name@ == m.name@ && s@[j].file_path@ == m.file_path@),
        decreases n - i,
    {
        if s[i].name == m.name && s[i].file_path == m.file_path {
            return true;
        }
        i = i + 1;
    }
    false
}

/// Merges the two backends' results: the similarity results first, then the graph
/// results, each kept only when no earlier result has its name and file path.
pub fn merge_search_results(similar: Vec<SymbolMatch>, graph: &Vec<SymbolMatch>) -> (r: Vec<SymbolMatch>)
    ensures
        r@ == merged(similar@, graph@),
{
    let mut all = similar;
    let ghost start = all@;
    let n = graph.len();
    let mut i: usize = 0;
    while i < n
        invariant
            n == graph.len(),
            i <= n,
            all@ == start + graph@.subrange(0, i as int),
        decreases n - i,
    {
        all.push(graph[i].copy());
        assert(all@ =~= start + graph@.subrange(0, i + 1));
        i = i + 1;
    }
    assert(graph@.subrange(0, n as int) =~= graph@);
    let mut out: Vec<SymbolMatch> = Vec::new();
    let m = all.len();
    let mut j: usize = 0;
    while j < m
        invariant
            m == all.len(),
            j <= m,
            out@ == unique_matches(all@.subrange(0, j as int)),
        decreases m - j,
    {
        assert(all@.subrange(0, j + 1).drop_last() =~= all@.subrange(0, j as int));
        assert(all@.subrange(0, j + 1).last() == all@[j as int]);
        if !has_match(&out, &all[j]) {
            out.push(all[j].copy());
        }
        j = j + 1;
    }
    assert(all@.subrange(0, m as int) =~= all@);
    out
}

/// Collects the answers of the found and partially found results; questions not
/// found contribute nothing and abort nothing.
pub fn collect_answers(results: Vec<QuestionResult>) -> (r: Vec<QuestionAnswer>)
    ensures
        r@ == answers_of(results@),
{
    let mut out: Vec<QuestionAnswer> = Vec::new();
    let mut rest = results;
    let ghost all = rest@;
    assert(all.subrange(0, all.len() as int) =~= all);
    let n = rest.len();
    let mut i: usize = 0;
    while i < n
        invariant
            n == all.len(),
            i <= n,
            rest@ == all.subrange(i as int, n as int),
            out@ == answers_of(all.subrange(0, i as int)),
        decreases n - i,
    {
        let r = rest.remove(0);
        assert(r == all[i as int]);
        assert(rest@ =~= all.subrange(i + 1, n as int));
        assert(all.subrange(0, i + 1).drop_last() =~= all.subrange(0, i as int));
        match r {
            QuestionResult::Found(mut a) => {
                let ghost add = a@;
                out.append(&mut a);
                assert(out@ =~= answers_of(all.subrange(0, i + 1)));
            },
            QuestionResult::PartiallyFound(mut a) => {
                let ghost add = a@;
                out.append(&mut a);
                assert(out@ =~= answers_of(all.subrange(0, i + 1)));
            },
            QuestionResult::NotFound => {
                assert(out@ =~= answers_of(all.subrange(0, i + 1)));
            },
        }
        i = i + 1;
    }
    assert(all.subrange(0, n as int) =~= all);
    out
}

/// The bounded search, verify and reformulate loop for one question at a time.
pub struct QuestionLoop {
    pub max_retries: usize,
}

impl QuestionLoop {
    /// A loop of three attempts.
    pub fn new() -> (r: QuestionLoop)
        ensures
            r.max_retries == 3,
    {
        QuestionLoop { max_retries: 3 }
    }

    /// The step after the search of attempt `attempt` (counted from 0) found
    /// `found` results.
    pub fn after_search(&self, attempt: usize, found: usize) -> (r: SearchStep)
        requires
            attempt < self.max_retries,
        ensures
            found == 0 && attempt + 1 < self.max_retries ==> r is Reformulate,
            found == 0 && attempt + 1 >= self.max_retries ==> r matches SearchStep::Finish(QuestionResult::NotFound),
            found > 0 ==> r is Verify,
    {
        if found == 0 && attempt < self.max_retries - 1 {
            SearchStep::Reformulate
        } else if found == 0 {
            SearchStep::Finish(QuestionResult::NotFound)
        } else {
            SearchStep::Verify
        }
    }

    /// The step after the model judged `results`, found at attempt `attempt`: found with
    /// full confidence when confirmed; else another attempt while any remains; else
    /// partially found with half confidence when there are results, not found otherwise.
    pub fn after_verification(
        &self,
        attempt: usize,
        question: &CriticalQuestion,
        results: Vec<SymbolMatch>,
        verification: &VerificationResult,
    ) -> (r: VerifyStep)
        requires
            attempt < self.max_retries,
        ensures
            verification.is_correct ==> (r matches VerifyStep::Finish(QuestionResult::Found(a)) && a@.len() == 1
                && a@[0].question@ == question.question@ && a@[0].symbols@ == results@
                && a@[0].confidence_percent == FOUND_CONFIDENCE),
            !verification.is_correct && attempt + 1 < self.max_retries ==> r is Reformulate,
            !verification.is_correct && attempt + 1 >= self.max_retries && results@.len() > 0 ==> (
            r matches VerifyStep::Finish(QuestionResult::PartiallyFound(a)) && a@.len() == 1
                && a@[0].question@ == question.question@ && a@[0].symbols@ == results@
                && a@[0].confidence_percent == PARTIAL_CONFIDENCE),
            !verification.is_correct && attempt + 1 >= self.max_retries && results@.len() == 0 ==> r matches VerifyStep::Finish(
                QuestionResult::NotFound,
            ),
    {
        if verification.is_correct {
            let a = QuestionAnswer {
                question: question.question.clone(),
                symbols: results,
                confidence_percent: FOUND_CONFIDENCE,
            };
            VerifyStep::Finish(QuestionResult::Found(vec![a]))
        } else if attempt < self.max_retries - 1 {
            VerifyStep::Reformulate
        } else if results.len() > 0 {
            let a = QuestionAnswer {
                question: question.question.clone(),
                symbols: results,
                confidence_percent: PARTIAL_CONFIDENCE,
            };
            VerifyStep::Finish(QuestionResult::PartiallyFound(vec![a]))
        } else {
            VerifyStep::Finish(QuestionResult::NotFound)
        }
    }

    /// The verification a model reply carries; when it cannot be decoded, fail open:
    /// correct exactly when `has_results`.
    pub fn verification_from_reply(&self, reply: &str, has_results: bool) -> (r: VerificationResult)
        ensures
            verification_view(r) == verification_from(reply@, has_results),
    {
        proof {
            reveal_strlit("is_correct");
            reveal_strlit("reason");
            reveal_strlit("suggestion");
            reveal_strlit("Failed to parse verification response");
        }
        let j = decode_reply(reply);
        let fallback = VerificationResult {
            is_correct: has_results,
            reason: "Failed to parse verification response".to_string(),
            suggestion: None,
        };
        match &j {
            Some(v) => match v {
                JsonValue::Object(_) => {
                    let c = get_member(v, "is_correct");
                    let why = get_member(v, "reason");
                    let s = get_member(v, "suggestion");
                    match (c, why, s) {
                        (Some(JsonValue::Bool(b)), Some(JsonValue::Str(w)), None) => VerificationResult {
                            is_correct: *b,
                            reason: w.clone(),
                            suggestion: None,
                        },
                        (Some(JsonValue::Bool(b)), Some(JsonValue::Str(w)), Some(JsonValue::Null)) => VerificationResult {
                            is_correct: *b,
                            reason: w.clone(),
                            suggestion: None,
                        },
                        (Some(JsonValue::Bool(b)), Some(JsonValue::Str(w)), Some(JsonValue::Str(x))) => VerificationResult {
                            is_correct: *b,
                            reason: w.clone(),
                            suggestion: Some(x.clone()),
                        },
                        _ => fallback,
                    }
                },
                _ => fallback,
            },
            None => fallback,
        }
    }

    /// `question` with its search query reformulated from the model's reply; when the
    /// reply names no new query, by the heuristic, so that the loop always moves on.
    pub fn reformulate_from_reply(&self, question: CriticalQuestion, reply: &str) -> (r: CriticalQuestion)
        ensures
            r.search_query@ == reformulated(reply@, question.search_query@, question.expected_type@),
            r.question == question.question,
            r.expected_type == question.expected_type,
            r.priority == question.priority,
    {
        proof {
            reveal_strlit("new_query");
        }
        let suggested = match decode_reply(reply) {
            Some(v) => get_str_member(&v, "new_query"),
            None => None,
        };
        let new_query = match suggested {
            Some(q) => q,
            None => heuristic(&question),
        };
        CriticalQuestion { search_query: new_query, ..question }
    }
}

fn heuristic(question: &CriticalQuestion) -> (r: String)
    ensures
        r@ == heuristic_query(question.search_query@, question.expected_type@),
{
    proof {
        reveal_strlit("User");
        reveal_strlit("UserModel");
        reveal_strlit(" ");
    }
    if contains_str(question.search_query.as_str(), "User") {
        replace_all(question.search_query.as_str(), "User", "UserModel")
    } else {
        let mut s = question.expected_type.clone();
        s.append(" ");
        s.append(question.search_query.as_str());
        s
    }
}


/// The text of member `key` of `v` when it is a string, else `dflt`.
pub open spec fn str_or(v: JsonValue, key: Seq<char>, dflt: Seq<char>) -> Seq<char> {
    match str_member(v, key) {
        Some(s) => s,
        None => dflt,
    }
}

/// The priority a label names; anything but "critical" and "high" is medium.
pub open spec fn priority_of(label: Seq<char>) -> Priority {
    if label == "critical"@ {
        Priority::Critical
    } else if label == "high"@ {
        Priority::High
    } else {
        Priority::Medium
    }
}

/// The view of a question: text, search query, expected type and priority.
pub open spec fn question_view(q: CriticalQuestion) -> (Seq<char>, Seq<char>, Seq<char>, Priority) {
    (q.question@, q.search_query@, q.expected_type@, q.priority)
}

/// The questions of a reply array: each element with a non-empty question and search
/// query, the expected type defaulting to "unknown" and the priority to medium.
pub open spec fn questions_in(xs: Seq<JsonValue>) -> Seq<(Seq<char>, Seq<char>, Seq<char>, Priority)>
    decreases xs.len(),
{
    if xs.len() == 0 {
        seq![]
    } else {
        let x = xs.last();
        let q = str_or(x, "question"@, seq![]);
        let s = str_or(x, "search_query"@, seq![]);
        if q.len() > 0 && s.len() > 0 {
            questions_in(xs.drop_last()).push(
                (q, s, str_or(x, "expected_type"@, "unknown"@), priority_of(str_or(x, "priority"@, "medium"@))),
            )
        } else {
            questions_in(xs.drop_last())
        }
    }
}

/// The questions a reply carries, `None` when it is not a JSON array.
pub open spec fn questions_of(reply: Seq<char>) -> Option<Seq<(Seq<char>, Seq<char>, Seq<char>, Priority)>> {
    match reply_json(reply) {
        Some(JsonValue::Array(xs)) => Some(questions_in(xs@)),
        _ => None,
    }
}

fn text_or_default(v: &JsonValue, key: &str, dflt: &str) -> (r: String)
    ensures
        r@ == str_or(*v, key@, dflt@),
{
    match get_str_member(v, key) {
        Some(s) => s,
        None => dflt.to_string(),
    }
}

/// The critical questions a question-generation reply lists; an error when the reply is
/// not a JSON array.
pub fn questions_from_reply(reply: &str) -> (r: Result<Vec<CriticalQuestion>, MiowError>)
    ensures
        match r {
            Ok(qs) => questions_of(reply@) == Some(qs@.map_values(|q: CriticalQuestion| question_view(q))),
            Err(e) => questions_of(reply@) is None && e is Json,
        },
{
    match decode_reply(reply) {
        Some(JsonValue::Array(xs)) => {
            let mut out: Vec<CriticalQuestion> = Vec::new();
            let n = xs.len();
            let mut i: usize = 0;
            while i < n
                invariant
                    n == xs.len(),
                    i <= n,
                    out@.map_values(|q: CriticalQuestion| question_view(q)) == questions_in(xs@.subrange(0, i as int)),
                decreases n - i,
            {
                assert(xs@.subrange(0, i + 1).drop_last() =~= xs@.subrange(0, i as int));
                assert(xs@.subrange(0, i + 1).last() == xs@[i as int]);
                proof {
                    reveal_strlit("question");
                    reveal_strlit("search_query");
                    reveal_strlit("expected_type");
                    reveal_strlit("unknown");
                    reveal_strlit("priority");
                    reveal_strlit("medium");
                    reveal_strlit("critical");
                    reveal_strlit("high");
                    reveal_strlit("");
                }
                assert(""@ =~= Seq::<char>::empty());
                let x = &xs[i];
                let question = text_or_default(x, "question", "");
                let search_query = text_or_default(x, "search_query", "");
                if question.unicode_len() > 0 && search_query.unicode_len() > 0 {
                    let expected_type = text_or_default(x, "expected_type", "unknown");
                    let label = text_or_default(x, "priority", "medium");
                    let priority = if same_text(label.as_str(), "critical") {
                        Priority::Critical
                    } else if same_text(label.as_str(), "high") {
                        Priority::High
                    } else {
                        Priority::Medium
                    };
                    let ghost before = out@;
                    let q = CriticalQuestion { question, search_query, expected_type, priority };
                    out.push(q);
                    assert(out@.map_values(|q: CriticalQuestion| question_view(q)) =~= before.map_values(
                        |q: CriticalQuestion| question_view(q),
                    ).push(question_view(q)));
                }
                i = i + 1;
            }
            assert(xs@.subrange(0, n as int) =~= xs@);
            Ok(out)
        },
        _ => Err(MiowError::Json("Failed to parse questions from LLM".to_string())),
    }
}


/// The most result summaries a verification prompt shows.
pub const VERIFY_SUMMARIES: usize = 5;

/// The summary line of one match: "- name (kind) in path".
pub open spec fn summary_line(m: SymbolMatch) -> Seq<char> {
    "- "@ + m.name@ + " ("@ + m.kind@ + ") in "@ + m.file_path@
}

/// The summary lines of the first `VERIFY_SUMMARIES` results.
pub open spec fn summary_lines(results: Seq<SymbolMatch>) -> Seq<Seq<char>> {
    let shown = if results.len() > VERIFY_SUMMARIES { results.take(VERIFY_SUMMARIES as int) } else { results };
    shown.map_values(|m: SymbolMatch| summary_line(m))
}

/// The prompt that asks the model whether `results` answer `question`.
pub open spec fn verification_prompt_spec(q: CriticalQuestion, results: Seq<SymbolMatch>) -> Seq<char> {
    "Question: "@ + q.question@ + "\nExpected type: "@ + q.expected_type@ + "\nSearch query used: "@
        + q.search_query@ + "\n\nSearch results found:\n"@ + joined(summary_lines(results), "\n"@)
        + verification_instructions()
}

/// What the verification prompt asks the model to answer.
pub open spec fn verification_instructions() -> Seq<char> {
    "\n\nTask: Verify if these results correctly answer the question.\nRespond with JSON:\n{\"is_correct\": true/false, \"reason\": \"explanation\", \"suggestion\": \"optional reformulated search query if incorrect\"}\nReturn ONLY the JSON."@
}

fn append_all(s: &mut String, parts: &[&str])
    ensures
        final(s)@ == old(s)@ + joined_plain(parts@.map_values(|p: &str| p@)),
{
    let ghost start = s@;
    let n = parts.len();
    let mut i: usize = 0;
    while i < n
        invariant
            n == parts@.len(),
            i <= n,
            s@ == start + joined_plain(parts@.map_values(|p: &str| p@).take(i as int)),
        decreases n - i,
    {
        let ghost before = s@;
        s.append(parts[i]);
        assert(parts@.map_values(|p: &str| p@).take(i + 1).drop_last() =~= parts@.map_values(|p: &str| p@).take(i as int));
        assert(s@ =~= start + joined_plain(parts@.map_values(|p: &str| p@).take(i + 1)));
        i = i + 1;
    }
    assert(parts@.map_values(|p: &str| p@).take(n as int) =~= parts@.map_values(|p: &str| p@));
}

/// The concatenation of `parts`.
pub open spec fn joined_plain(parts: Seq<Seq<char>>) -> Seq<char>
    decreases parts.len(),
{
    if parts.len() == 0 {
        seq![]
    } else {
        joined_plain(parts.drop_last()) + parts.last()
    }
}

/// The prompt that asks the model whether `results` answer `question`, showing the
/// first `VERIFY_SUMMARIES` results.
pub fn verification_prompt(question: &CriticalQuestion, results: &Vec<SymbolMatch>) -> (r: String)
    ensures
        r@ == verification_prompt_spec(*question, results@),
{
    let shown = if results.len() > VERIFY_SUMMARIES { VERIFY_SUMMARIES } else { results.len() };
    let ghost all = summary_lines(results@);
    let mut lines: Vec<String> = Vec::new();
    let mut i: usize = 0;
    while i < shown
        invariant
            shown <= results@.len(),
            shown == all.len(),
            all == summary_lines(results@),
            i <= shown,
            lines@.map_values(|l: String| l@) == all.take(i as int),
        decreases shown - i,
    {
        let m = &results[i];
        let mut line = String::new();
        append_all(&mut line, &[
            "- ",
            m.name.as_str(),
            " (",
            m.kind.as_str(),
            ") in ",
            m.file_path.as_str(),
        ]);
        proof {
            reveal_with_fuel(joined_plain, 7);
        }
        assert(line@ =~= summary_line(results@[i as int]));
        assert(all[i as int] == summary_line(results@[i as int]));
        lines.push(line);
        assert(lines@.map_values(|l: String| l@) =~= all.take(i + 1));
        i = i + 1;
    }
    assert(all.take(shown as int) =~= all);
    let summary = join(lines.as_slice(), "\n");
    let mut out = String::new();
    append_all(&mut out, &[
        "Question: ",
        question.question.as_str(),
        "\nExpected type: ",
        question.expected_type.as_str(),
        "\nSearch query used: ",
        question.search_query.as_str(),
        "\n\nSearch results found:\n",
        summary.as_str(),
        "\n\nTask: Verify if these results correctly answer the question.\nRespond with JSON:\n{\"is_correct\": true/false, \"reason\": \"explanation\", \"suggestion\": \"optional reformulated search query if incorrect\"}\nReturn ONLY the JSON.",
    ]);
    proof {
        reveal_with_fuel(joined_plain, 10);
    }
    assert(out@ =~= verification_prompt_spec(*question, results@));
    out
}

} // verus!
