//! Context retrieval orchestration for a code-generation assistant: a planner that
//! orders specialized search workers by their dependencies, a bounded search, verify and
//! reformulate loop for factual questions, and a shrink pipeline (deduplicate, prune to
//! a token budget, audit) over the gathered context. Every decision fed by a model reply
//! is a function of that reply's text, with a deterministic fallback.
pub mod analyzer;
pub mod auditor;
pub mod context;
pub mod files;
pub mod graph;
pub mod json;
pub mod parsed;
pub mod project;
pub mod question_loop;
pub mod registry;
pub mod resilient;
pub mod router;
pub mod schedule;
pub mod style;
pub mod text;
pub mod workers;
