use vstd::prelude::*;

use crate::json::{decode_reply, get_member, member, reply_json, JsonValue};
use crate::registry::{builtin_dependencies, builtin_profile, registered_dependencies, registered_profile, PromptRegistry};
use crate::text::{replace_all, replace_spec};

verus! {

/// Errors that reach the caller of a worker.
pub enum MiowError {
    Io(String),
    Json(String),
    Llm(String),
    Database(String),
    Indexing(String),
    Config(String),
    Generic(String),
}

/// Where a chunk came from.
pub struct ChunkMetadata {
    /// The key of the worker that produced the chunk.
    pub worker: String,
    pub description: String,
    /// Whether the chunk is the whole raw reply, kept because it could not be decoded.
    pub fallback: bool,
}

/// A normalized unit of retrieved content, with its provenance.
pub struct CodeChunk {
    pub id: String,
    pub content: String,
    pub file_path: String,
    pub language: String,
    pub start_line: usize,
    pub end_line: usize,
    pub kind: String,
    pub metadata: ChunkMetadata,
}

pub struct CodeChunkView {
    pub id: Seq<char>,
    pub content: Seq<char>,
    pub file_path: Seq<char>,
    pub language: Seq<char>,
    pub start_line: usize,
    pub end_line: usize,
    pub kind: Seq<char>,
    pub worker: Seq<char>,
    pub description: Seq<char>,
    pub fallback: bool,
}

impl View for CodeChunk {
    type V = CodeChunkView;

    open spec fn view(&self) -> CodeChunkView {
        CodeChunkView {
            id: self.id@,
            content: self.content@,
            file_path: self.file_path@,
            language: self.language@,
            start_line: self.start_line,
            end_line: self.end_line,
            kind: self.kind@,
            worker: self.metadata.worker@,
            description: self.metadata.description@,
            fallback: self.metadata.fallback,
        }
    }
}

/// What one worker produced.
pub struct WorkerResult {
    pub worker_id: String,
    pub chunks: Vec<CodeChunk>,
    pub summary: String,
    /// A fixed placeholder, in percent: not yet derived from the reply's quality.
    pub confidence_percent: u8,
}

/// The placeholder confidence of a worker result, in percent.
pub const WORKER_CONFIDENCE: u8 = 80;

/// The decimal digit for `d < 10`.
pub open spec fn digit(d: nat) -> char {
    if d == 0 { '0' } else if d == 1 { '1' } else if d == 2 { '2' } else if d == 3 { '3' } else if d == 4 { '4' }
    else if d == 5 { '5' } else if d == 6 { '6' } else if d == 7 { '7' } else if d == 8 { '8' } else { '9' }
}

/// The decimal notation of `n`.
pub open spec fn decimal(n: nat) -> Seq<char>
    decreases n,
{
    if n < 10 {
        seq![digit(n)]
    } else {
        decimal(n / 10).push(digit(n % 10))
    }
}

fn digit_str(d: usize) -> (r: &'static str)
    requires
        d < 10,
    ensures
        r@ == seq![digit(d as nat)],
{
    proof {
        reveal_strlit("0");
        reveal_strlit("1");
        reveal_strlit("2");
        reveal_strlit("3");
        reveal_strlit("4");
        reveal_strlit("5");
        reveal_strlit("6");
        reveal_strlit("7");
        reveal_strlit("8");
        reveal_strlit("9");
    }
    let r = if d == 0 { "0" } else if d == 1 { "1" } else if d == 2 { "2" } else if d == 3 { "3" }
    else if d == 4 { "4" } else if d == 5 { "5" } else if d == 6 { "6" } else if d == 7 { "7" }
    else if d == 8 { "8" } else { "9" };
    assert(r@ =~= seq![digit(d as nat)]);
    r
}

/// The decimal notation of `n`.
pub fn to_decimal(n: usize) -> (r: String)
    ensures
        r@ == decimal(n as nat),
    decreases n,
{
    if n < 10 {
        digit_str(n).to_string()
    } else {
        let mut s = to_decimal(n / 10);
        s.append(digit_str(n % 10));
        s
    }
}

/// `a` followed by `b`.
fn concat(a: &str, b: &str) -> (r: String)
    ensures
        r@ == a@ + b@,
{
    let mut s = a.to_string();
    s.append(b);
    s
}

/// The text of a string value, the empty text for any other value.
pub open spec fn text_of(v: JsonValue) -> Seq<char> {
    match v {
        JsonValue::Str(s) => s@,
        _ => seq![],
    }
}

/// The text of member `key`, or, when it is absent, of member `alt`; `dflt` when both are
/// absent or the member found is not a string.
pub open spec fn field_text(ms: Seq<(String, JsonValue)>, key: Seq<char>, alt: Seq<char>, dflt: Seq<char>) -> Seq<char> {
    match member(ms, key) {
        Some(JsonValue::Str(s)) => s@,
        Some(_) => dflt,
        None => match member(ms, alt) {
            Some(JsonValue::Str(s)) => s@,
            _ => dflt,
        },
    }
}

/// The chunk decoded from one object of a worker reply, numbered `index`.
pub open spec fn object_chunk(key: Seq<char>, ms: Seq<(String, JsonValue)>, index: nat) -> CodeChunkView {
    CodeChunkView {
        id: key + "-"@ + decimal(index),
        content: field_text(ms, "content"@, "definition"@, seq![]),
        file_path: field_text(ms, "file_path"@, "path"@, seq![]),
        language: field_text(ms, "language"@, "language"@, "unknown"@),
        start_line: 0,
        end_line: 0,
        kind: field_text(ms, "kind"@, "type"@, "unknown"@),
        worker: key,
        description: field_text(ms, "description"@, "description"@, seq![]),
        fallback: false,
    }
}

/// The chunks decoded from the elements of a reply array: one for each object, numbered
/// in order; other elements are skipped.
pub open spec fn array_chunks(key: Seq<char>, xs: Seq<JsonValue>) -> Seq<CodeChunkView>
    decreases xs.len(),
{
    if xs.len() == 0 {
        seq![]
    } else {
        let r = array_chunks(key, xs.drop_last());
        match xs.last() {
            JsonValue::Object(ms) => r.push(object_chunk(key, ms@, r.len())),
            _ => r,
        }
    }
}

/// The single chunk that keeps a reply that is not a JSON array.
pub open spec fn fallback_chunk(key: Seq<char>, reply: Seq<char>) -> CodeChunkView {
    CodeChunkView {
        id: key + "-fallback"@,
        content: reply,
        file_path: key + "_analysis.txt"@,
        language: "text"@,
        start_line: 0,
        end_line: 0,
        kind: "analysis"@,
        worker: key,
        description: seq![],
        fallback: true,
    }
}

/// The chunks of a worker reply: decoded from a JSON array, else the whole reply as one
/// fallback chunk.
pub open spec fn reply_chunks(key: Seq<char>, reply: Seq<char>) -> Seq<CodeChunkView> {
    match reply_json(reply) {
        Some(JsonValue::Array(xs)) => array_chunks(key, xs@),
        _ => seq![fallback_chunk(key, reply)],
    }
}

/// The template of `p` with its placeholders filled: the task, the project description
/// (for `{project_info}` and `{project_stack}`), and empty text for the reserved ones.
pub open spec fn filled_template(template: Seq<char>, user_prompt: Seq<char>, project_info: Seq<char>) -> Seq<char> {
    replace_spec(
        replace_spec(
            replace_spec(
                replace_spec(
                    replace_spec(
                        replace_spec(
                            replace_spec(
                                replace_spec(template, "{user_prompt}"@, user_prompt),
                                "{project_info}"@,
                                project_info,
                            ),
                            "{project_stack}"@,
                            project_info,
                        ),
                        "{file_path}"@,
                        seq![],
                    ),
                    "{error_message}"@,
                    seq![],
                ),
                "{file_list}"@,
                seq![],
            ),
            "{package_managers}"@,
            seq![],
        ),
        "{config_files}"@,
        seq![],
    )
}

fn text_or(ms: &JsonValue, key: &str, alt: &str, dflt: &str) -> (r: String)
    requires
        ms is Object,
    ensures
        r@ == field_text(ms->Object_0@, key@, alt@, dflt@),
{
    match get_member(ms, key) {
        Some(JsonValue::Str(s)) => s.clone(),
        Some(_) => dflt.to_string(),
        None => match get_member(ms, alt) {
            Some(JsonValue::Str(s)) => s.clone(),
            _ => dflt.to_string(),
        },
    }
}

fn chunk_from_object(key: &str, v: &JsonValue, index: usize) -> (r: CodeChunk)
    requires
        v is Object,
    ensures
        r@ == object_chunk(key@, v->Object_0@, index as nat),
{
    proof {
        reveal_strlit("-");
        reveal_strlit("content");
        reveal_strlit("definition");
        reveal_strlit("file_path");
        reveal_strlit("path");
        reveal_strlit("language");
        reveal_strlit("unknown");
        reveal_strlit("kind");
        reveal_strlit("type");
        reveal_strlit("description");
        reveal_strlit("");
    }
    let head = concat(key, "-");
    let id = concat(head.as_str(), to_decimal(index).as_str());
    let r = CodeChunk {
        id,
        content: text_or(v, "content", "definition", ""),
        file_path: text_or(v, "file_path", "path", ""),
        language: text_or(v, "language", "language", "unknown"),
        start_line: 0,
        end_line: 0,
        kind: text_or(v, "kind", "type", "unknown"),
        metadata: ChunkMetadata {
            worker: key.to_string(),
            description: text_or(v, "description", "description", ""),
            fallback: false,
        },
    };
    assert(""@ =~= Seq::<char>::empty());
    r
}

/// Parses a worker's reply into chunks: one per object of a JSON array, or the whole
/// reply as a single fallback chunk when it is not one.
pub fn parse_llm_response(prompt_key: &str, response: &str) -> (r: Vec<CodeChunk>)
    ensures
        r@.map_values(|c: CodeChunk| c@) == reply_chunks(prompt_key@, response@),
{
    proof {
        reveal_strlit("-fallback");
        reveal_strlit("_analysis.txt");
        reveal_strlit("text");
        reveal_strlit("analysis");
    }
    match decode_reply(response) {
        Some(JsonValue::Array(xs)) => {
            let mut chunks: Vec<CodeChunk> = Vec::new();
            let n = xs.len();
            let mut i: usize = 0;
            while i < n
                invariant
                    n == xs.len(),
                    i <= n,
                    chunks@.len() <= i,
                    chunks@.map_values(|c: CodeChunk| c@) == array_chunks(prompt_key@, xs@.subrange(0, i as int)),
                decreases n - i,
            {
                assert(xs@.subrange(0, i + 1).drop_last() =~= xs@.subrange(0, i as int));
                assert(xs@.subrange(0, i + 1).last() == xs@[i as int]);
                let x = &xs[i];
                match x {
                    JsonValue::Object(_) => {
                        let ghost before = chunks@;
                        let c = chunk_from_object(prompt_key, x, chunks.len());
                        chunks.push(c);
                        assert(chunks@.map_values(|c: CodeChunk| c@) =~= before.map_values(|c: CodeChunk| c@).push(c@));
                    },
                    _ => {},
                }
                i = i + 1;
            }
            assert(xs@.subrange(0, n as int) =~= xs@);
            chunks
        },
        _ => {
            let c = CodeChunk {
                id: concat(prompt_key, "-fallback"),
                content: response.to_string(),
                file_path: concat(prompt_key, "_analysis.txt"),
                language: "text".to_string(),
                start_line: 0,
                end_line: 0,
                kind: "analysis".to_string(),
                metadata: ChunkMetadata { worker: prompt_key.to_string(), description: String::new(), fallback: true },
            };
            let r = vec![c];
            assert(r@.map_values(|c: CodeChunk| c@) =~= seq![fallback_chunk(prompt_key@, response@)]);
            r
        },
    }
}

/// Runs specialized prompts: builds each worker's prompt and turns its reply into a
/// result.
pub struct GeminiWorkerAgent {
    pub registry: PromptRegistry,
}

impl GeminiWorkerAgent {
    /// A worker agent over `registry`.
    pub fn new(registry: PromptRegistry) -> (r: GeminiWorkerAgent)
        ensures
            r.registry == registry,
    {
        GeminiWorkerAgent { registry }
    }

    /// A worker agent over the built-in prompt catalog.
    pub fn new_with_registry() -> (r: GeminiWorkerAgent)
        ensures
            r.registry.wf(),
            forall|k: Seq<char>| registered_dependencies(r.registry, k) == builtin_dependencies(k),
            forall|k: Seq<char>| registered_profile(r.registry, k) == builtin_profile(k),
    {
        GeminiWorkerAgent { registry: PromptRegistry::new() }
    }

    /// The system and user messages for worker `prompt_key`; a key the registry does not
    /// know is a configuration error.
    pub fn worker_messages(&self, prompt_key: &str, user_prompt: &str, project_info: &str) -> (r: Result<
        (String, String),
        MiowError,
    >)
        ensures
            match self.registry.spec_get(prompt_key@) {
                None => r matches Err(MiowError::Config(_)),
                Some(p) => r matches Ok((sys, user)) && sys@ == "You are a "@ + p.description@ + ". "@
                    + p.description@ && user@ == filled_template(p.template@, user_prompt@, project_info@),
            },
    {
        match self.registry.get_prompt(prompt_key) {
            None => Err(MiowError::Config(concat("Unknown prompt key: ", prompt_key))),
            Some(p) => {
                proof {
                    reveal_strlit("{user_prompt}");
                    reveal_strlit("{project_info}");
                    reveal_strlit("{project_stack}");
                    reveal_strlit("{file_path}");
                    reveal_strlit("{error_message}");
                    reveal_strlit("{file_list}");
                    reveal_strlit("{package_managers}");
                    reveal_strlit("{config_files}");
                    reveal_strlit("");
                }
                let a = concat("You are a ", p.description.as_str());
                let b = concat(a.as_str(), ". ");
                let system = concat(b.as_str(), p.description.as_str());
                let t = replace_all(p.template.as_str(), "{user_prompt}", user_prompt);
                let t = replace_all(t.as_str(), "{project_info}", project_info);
                let t = replace_all(t.as_str(), "{project_stack}", project_info);
                let t = replace_all(t.as_str(), "{file_path}", "");
                let t = replace_all(t.as_str(), "{error_message}", "");
                let t = replace_all(t.as_str(), "{file_list}", "");
                let t = replace_all(t.as_str(), "{package_managers}", "");
                let t = replace_all(t.as_str(), "{config_files}", "");
                assert(""@ =~= Seq::<char>::empty());
                Ok((system, t))
            },
        }
    }

    /// The result of worker `prompt_key` from its reply.
    pub fn result_from_reply(&self, prompt_key: &str, reply: &str) -> (r: WorkerResult)
        ensures
            r.worker_id@ == prompt_key@,
            r.chunks@.map_values(|c: CodeChunk| c@) == reply_chunks(prompt_key@, reply@),
            r.summary@ == "Executed "@ + prompt_key@ + " worker"@,
            r.confidence_percent == WORKER_CONFIDENCE,
    {
        let a = concat("Executed ", prompt_key);
        WorkerResult {
            worker_id: prompt_key.to_string(),
            chunks: parse_llm_response(prompt_key, reply),
            summary: concat(a.as_str(), " worker"),
            confidence_percent: WORKER_CONFIDENCE,
        }
    }
}

} // verus!
