use vstd::prelude::*;
use vstd::utf8::encode_utf8;

use crate::text::{
    all_alphanumeric, has_lower, has_upper, contains_str, dedup_adjacent, dedup_strings, has_infix, has_lowercase,
    has_uppercase, is_alnum, is_upper, lower_of, same_text, sort_strings, sorted_strings,
    split_whitespace, to_lowercase, trim_non_alnum, trim_non_alphanumeric, words,
};

verus! {

broadcast use vstd::seq::Seq::lemma_push_map_commute;

#[derive(Debug, Clone, Copy, PartialEq, Eq, Structural)]
pub enum PromptIntent {
    Create,
    CreateComponent,
    CreateFunction,
    CreatePage,
    Modify,
    Fix,
    Refactor,
    Unknown,
}

/// A user prompt with what was read from it.
pub struct AnalyzedPrompt {
    pub original: String,
    pub keywords: Vec<String>,
    pub intent: PromptIntent,
    pub entities: Vec<String>,
}

/// Whether `w` is a word too common to be a keyword.
pub open spec fn is_stop_word(w: Seq<char>) -> bool {
    w == "a"@ ||
        w == "an"@ ||
        w == "the"@ ||
        w == "is"@ ||
        w == "are"@ ||
        w == "was"@ ||
        w == "were"@ ||
        w == "be"@ ||
        w == "been"@ ||
        w == "being"@ ||
        w == "have"@ ||
        w == "has"@ ||
        w == "had"@ ||
        w == "do"@ ||
        w == "does"@ ||
        w == "did"@ ||
        w == "will"@ ||
        w == "would"@ ||
        w == "should"@ ||
        w == "could"@ ||
        w == "may"@ ||
        w == "might"@ ||
        w == "must"@ ||
        w == "can"@ ||
        w == "to"@ ||
        w == "from"@ ||
        w == "in"@ ||
        w == "on"@ ||
        w == "at"@ ||
        w == "by"@ ||
        w == "for"@ ||
        w == "with"@ ||
        w == "about"@ ||
        w == "as"@ ||
        w == "of"@ ||
        w == "and"@ ||
        w == "or"@ ||
        w == "but"@ ||
        w == "not"@ ||
        w == "this"@ ||
        w == "that"@ ||
        w == "these"@ ||
        w == "those"@ ||
        w == "i"@ ||
        w == "you"@ ||
        w == "he"@ ||
        w == "she"@ ||
        w == "it"@ ||
        w == "we"@ ||
        w == "they"@ ||
        w == "me"@ ||
        w == "him"@ ||
        w == "her"@ ||
        w == "us"@ ||
        w == "them"@ ||
        w == "my"@ ||
        w == "your"@ ||
        w == "his"@ ||
        w == "its"@ ||
        w == "our"@ ||
        w == "their"@ ||
        w == "make"@ ||
        w == "create"@ ||
        w == "add"@ ||
        w == "build"@ ||
        w == "implement"@ ||
        w == "write"@
}

/// Whether a lowercased word is a keyword: not a stop word, longer than two bytes, and
/// alphanumeric throughout.
pub open spec fn is_keyword(w: Seq<char>) -> bool {
    !is_stop_word(w) && encode_utf8(w).len() > 2 && forall|i: int| 0 <= i < w.len() ==> is_alnum(#[trigger] w[i])
}

/// The keywords among `ws`, in order.
pub open spec fn keywords_in(ws: Seq<Seq<char>>) -> Seq<Seq<char>>
    decreases ws.len(),
{
    if ws.len() == 0 {
        seq![]
    } else if is_keyword(ws.last()) {
        keywords_in(ws.drop_last()).push(ws.last())
    } else {
        keywords_in(ws.drop_last())
    }
}

/// The intent read from a lowercased prompt.
pub open spec fn intent_of(lower: Seq<char>) -> PromptIntent {
    if has_infix(lower, "create"@) || has_infix(lower, "make"@) || has_infix(lower, "add"@) || has_infix(lower, "new"@) {
        if has_infix(lower, "component"@) {
            PromptIntent::CreateComponent
        } else if has_infix(lower, "function"@) || has_infix(lower, "helper"@) {
            PromptIntent::CreateFunction
        } else if has_infix(lower, "page"@) || has_infix(lower, "screen"@) {
            PromptIntent::CreatePage
        } else {
            PromptIntent::Create
        }
    } else if has_infix(lower, "modify"@) || has_infix(lower, "update"@) || has_infix(lower, "change"@)
        || has_infix(lower, "edit"@) {
        PromptIntent::Modify
    } else if has_infix(lower, "fix"@) || has_infix(lower, "debug"@) || has_infix(lower, "solve"@) {
        PromptIntent::Fix
    } else if has_infix(lower, "refactor"@) || has_infix(lower, "improve"@) || has_infix(lower, "optimize"@) {
        PromptIntent::Refactor
    } else {
        PromptIntent::Unknown
    }
}

/// Each word of `ws`, cut of its non-alphanumeric ends, that then starts with an
/// uppercase character.
pub open spec fn capitalized(ws: Seq<Seq<char>>) -> Seq<Seq<char>>
    decreases ws.len(),
{
    if ws.len() == 0 {
        seq![]
    } else if trim_non_alnum(ws.last()).len() > 0 && is_upper(trim_non_alnum(ws.last())[0]) {
        capitalized(ws.drop_last()).push(trim_non_alnum(ws.last()))
    } else {
        capitalized(ws.drop_last())
    }
}

/// Each word of `ws` that mixes uppercase and lowercase characters.
pub open spec fn mixed_case(ws: Seq<Seq<char>>) -> Seq<Seq<char>>
    decreases ws.len(),
{
    if ws.len() == 0 {
        seq![]
    } else if has_upper(ws.last()) && has_lower(ws.last()) {
        mixed_case(ws.drop_last()).push(ws.last())
    } else {
        mixed_case(ws.drop_last())
    }
}

/// The entity candidates of a prompt: capitalized words, then mixed-case words.
pub open spec fn entity_candidates(prompt: Seq<char>) -> Seq<Seq<char>> {
    capitalized(words(prompt)) + mixed_case(words(prompt))
}

/// Reads keywords, intent and entity names from user prompts.
pub struct ContextAnalyzer;

impl ContextAnalyzer {
    pub fn new() -> (r: ContextAnalyzer) {
        ContextAnalyzer
    }

    /// The prompt with its keywords, intent and entities.
    pub fn analyze_prompt(&self, prompt: &str) -> (r: AnalyzedPrompt)
        ensures
            r.original@ == prompt@,
            r.keywords@.map_values(|s: String| s@) == keywords_in(words(lower_of(prompt@))),
            r.intent == intent_of(lower_of(prompt@)),
            exists|s: Seq<String>|
                sorted_strings(s) && s.map_values(|x: String| x@).to_multiset() == entity_candidates(prompt@).to_multiset()
                    && r.entities@.map_values(|x: String| x@) == dedup_adjacent(s.map_values(|x: String| x@)),
    {
        let keywords = self.extract_keywords(prompt);
        let intent = self.infer_intent(prompt);
        let entities = self.extract_entities(prompt);
        AnalyzedPrompt { original: prompt.to_string(), keywords, intent, entities }
    }

    /// The keywords of the lowercased prompt, in order.
    pub fn extract_keywords(&self, prompt: &str) -> (r: Vec<String>)
        ensures
            r@.map_values(|s: String| s@) == keywords_in(words(lower_of(prompt@))),
    {
        let lower = to_lowercase(prompt);
        let ws = split_whitespace(lower.as_str());
        let ghost all = ws@.map_values(|s: String| s@);
        let mut out: Vec<String> = Vec::new();
        let n = ws.len();
        let mut i: usize = 0;
        while i < n
            invariant
                n == ws.len(),
                all == ws@.map_values(|s: String| s@),
                all == words(lower_of(prompt@)),
                i <= n,
                out@.map_values(|s: String| s@) == keywords_in(all.subrange(0, i as int)),
            decreases n - i,
        {
            let ghost pre = all.subrange(0, i + 1);
            assert(pre.drop_last() =~= all.subrange(0, i as int));
            assert(pre.last() == ws@[i as int]@);
            let w = ws[i].as_str();
            let a = is_stop_word_text(w);
            let b = w.as_bytes().len() > 2;
            let c = all_alphanumeric(w);
            assert(a == is_stop_word(w@));
            assert(b == (encode_utf8(w@).len() > 2));
            let keep = !a && b && c;
            assert(keep == is_keyword(w@));
            if keep {
                out.push(ws[i].clone());
            }
            i = i + 1;
        }
        assert(all.subrange(0, n as int) =~= all);
        out
    }

    /// The intent read from the lowercased prompt.
    pub fn infer_intent(&self, prompt: &str) -> (r: PromptIntent)
        ensures
            r == intent_of(lower_of(prompt@)),
    {
        let lower = to_lowercase(prompt);
        let l = lower.as_str();
        if contains_str(l, "create") || contains_str(l, "make") || contains_str(l, "add") || contains_str(l, "new") {
            if contains_str(l, "component") {
                PromptIntent::CreateComponent
            } else if contains_str(l, "function") || contains_str(l, "helper") {
                PromptIntent::CreateFunction
            } else if contains_str(l, "page") || contains_str(l, "screen") {
                PromptIntent::CreatePage
            } else {
                PromptIntent::Create
            }
        } else if contains_str(l, "modify") || contains_str(l, "update") || contains_str(l, "change")
            || contains_str(l, "edit") {
            PromptIntent::Modify
        } else if contains_str(l, "fix") || contains_str(l, "debug") || contains_str(l, "solve") {
            PromptIntent::Fix
        } else if contains_str(l, "refactor") || contains_str(l, "improve") || contains_str(l, "optimize") {
            PromptIntent::Refactor
        } else {
            PromptIntent::Unknown
        }
    }

    /// The entity names of the prompt, sorted by bytes, with repeats removed.
    pub fn extract_entities(&self, prompt: &str) -> (r: Vec<String>)
        ensures
            exists|s: Seq<String>|
                sorted_strings(s) && s.map_values(|x: String| x@).to_multiset() == entity_candidates(prompt@).to_multiset()
                    && r@.map_values(|x: String| x@) == dedup_adjacent(s.map_values(|x: String| x@)),
    {
        let ws = split_whitespace(prompt);
        let ghost all = ws@.map_values(|s: String| s@);
        let mut entities: Vec<String> = Vec::new();
        let n = ws.len();
        let mut i: usize = 0;
        while i < n
            invariant
                n == ws.len(),
                all == ws@.map_values(|s: String| s@),
                i <= n,
                entities@.map_values(|s: String| s@) == capitalized(all.subrange(0, i as int)),
            decreases n - i,
        {
            let ghost pre = all.subrange(0, i + 1);
            assert(pre.drop_last() =~= all.subrange(0, i as int));
            assert(pre.last() == ws@[i as int]@);
            let cleaned = trim_non_alphanumeric(ws[i].as_str());
            if cleaned.unicode_len() > 0 && char_is_upper_first(cleaned.as_str()) {
                entities.push(cleaned);
            }
            i = i + 1;
        }
        assert(all.subrange(0, n as int) =~= all);
        let ghost first = entities@.map_values(|s: String| s@);
        let mut j: usize = 0;
        while j < n
            invariant
                n == ws.len(),
                all == ws@.map_values(|s: String| s@),
                j <= n,
                entities@.map_values(|s: String| s@) == first + mixed_case(all.subrange(0, j as int)),
            decreases n - j,
        {
            let ghost pre = all.subrange(0, j + 1);
            assert(pre.drop_last() =~= all.subrange(0, j as int));
            assert(pre.last() == ws@[j as int]@);
            let w = ws[j].as_str();
            if has_uppercase(w) && has_lowercase(w) {
                let ghost before = entities@.map_values(|s: String| s@);
                entities.push(ws[j].clone());
                assert(entities@.map_values(|s: String| s@) =~= first + mixed_case(all.subrange(0, j + 1)));
            } else {
                assert(!(has_upper(pre.last()) && has_lower(pre.last())));
                assert(mixed_case(pre) == mixed_case(all.subrange(0, j as int)));
            }
            j = j + 1;
        }
        assert(entities@.map_values(|s: String| s@) =~= entity_candidates(prompt@));
        sort_strings(&mut entities);
        dedup_strings(&entities)
    }
}

fn char_is_upper_first(s: &str) -> (r: bool)
    requires
        s@.len() > 0,
    ensures
        r == is_upper(s@[0]),
{
    crate::text::char_is_uppercase(s.get_char(0))
}

/// Whether `w` is a word too common to be a keyword.
pub fn is_stop_word_text(w: &str) -> (r: bool)
    ensures
        r == is_stop_word(w@),
{
    same_text(w, "a") ||
        same_text(w, "an") ||
        same_text(w, "the") ||
        same_text(w, "is") ||
        same_text(w, "are") ||
        same_text(w, "was") ||
        same_text(w, "were") ||
        same_text(w, "be") ||
        same_text(w, "been") ||
        same_text(w, "being") ||
        same_text(w, "have") ||
        same_text(w, "has") ||
        same_text(w, "had") ||
        same_text(w, "do") ||
        same_text(w, "does") ||
        same_text(w, "did") ||
        same_text(w, "will") ||
        same_text(w, "would") ||
        same_text(w, "should") ||
        same_text(w, "could") ||
        same_text(w, "may") ||
        same_text(w, "might") ||
        same_text(w, "must") ||
        same_text(w, "can") ||
        same_text(w, "to") ||
        same_text(w, "from") ||
        same_text(w, "in") ||
        same_text(w, "on") ||
        same_text(w, "at") ||
        same_text(w, "by") ||
        same_text(w, "for") ||
        same_text(w, "with") ||
        same_text(w, "about") ||
        same_text(w, "as") ||
        same_text(w, "of") ||
        same_text(w, "and") ||
        same_text(w, "or") ||
        same_text(w, "but") ||
        same_text(w, "not") ||
        same_text(w, "this") ||
        same_text(w, "that") ||
        same_text(w, "these") ||
        same_text(w, "those") ||
        same_text(w, "i") ||
        same_text(w, "you") ||
        same_text(w, "he") ||
        same_text(w, "she") ||
        same_text(w, "it") ||
        same_text(w, "we") ||
        same_text(w, "they") ||
        same_text(w, "me") ||
        same_text(w, "him") ||
        same_text(w, "her") ||
        same_text(w, "us") ||
        same_text(w, "them") ||
        same_text(w, "my") ||
        same_text(w, "your") ||
        same_text(w, "his") ||
        same_text(w, "its") ||
        same_text(w, "our") ||
        same_text(w, "their") ||
        same_text(w, "make") ||
        same_text(w, "create") ||
        same_text(w, "add") ||
        same_text(w, "build") ||
        same_text(w, "implement") ||
        same_text(w, "write")
}

} // verus!
