use vstd::prelude::*;

use crate::registry::views;
use crate::router::opt_str;
use crate::schedule::contains_text;
use crate::text::same_text;

verus! {

/// The languages the indexer knows.
#[derive(Debug, Clone, Copy, PartialEq, Eq, Structural)]
pub enum Language {
    TypeScript,
    JavaScript,
    TSX,
    JSX,
    Python,
    Rust,
    CSS,
    JSON,
    Unknown,
}

/// The language of a file extension (without the dot).
pub open spec fn language_of(ext: Seq<char>) -> Language {
    if ext == "ts"@ {
        Language::TypeScript
    } else if ext == "tsx"@ {
        Language::TSX
    } else if ext == "js"@ {
        Language::JavaScript
    } else if ext == "jsx"@ {
        Language::JSX
    } else if ext == "py"@ {
        Language::Python
    } else if ext == "rs"@ {
        Language::Rust
    } else if ext == "css"@ {
        Language::CSS
    } else if ext == "json"@ {
        Language::JSON
    } else {
        Language::Unknown
    }
}

impl Language {
    pub fn from_extension(ext: &str) -> (r: Language)
        ensures
            r == language_of(ext@),
    {
        if same_text(ext, "ts") {
            Language::TypeScript
        } else if same_text(ext, "tsx") {
            Language::TSX
        } else if same_text(ext, "js") {
            Language::JavaScript
        } else if same_text(ext, "jsx") {
            Language::JSX
        } else if same_text(ext, "py") {
            Language::Python
        } else if same_text(ext, "rs") {
            Language::Rust
        } else if same_text(ext, "css") {
            Language::CSS
        } else if same_text(ext, "json") {
            Language::JSON
        } else {
            Language::Unknown
        }
    }

    /// Whether a parser exists for the language.
    pub fn is_parseable(&self) -> (r: bool)
        ensures
            r == (*self == Language::TypeScript || *self == Language::TSX || *self == Language::JavaScript
                || *self == Language::JSX || *self == Language::Python || *self == Language::Rust),
    {
        match self {
            Language::TypeScript | Language::TSX | Language::JavaScript | Language::JSX | Language::Python
            | Language::Rust => true,
            _ => false,
        }
    }
}

/// A file of the codebase.
pub struct CodeFile {
    pub path: String,
    pub relative_path: String,
    pub language: Language,
    pub size: u64,
    pub content: String,
}

/// What an indexing run reports.
pub struct IndexReport {
    pub total_files: usize,
    /// File counts by language name.
    pub files_by_language: Vec<(String, usize)>,
    pub total_size: u64,
    pub duration_ms: u128,
    pub files: Vec<CodeFile>,
}

/// What the indexer reads.
pub struct IndexConfig {
    pub max_file_size: u64,
    pub ignore_patterns: Vec<String>,
    pub include_extensions: Vec<String>,
}

/// The largest file indexed by default: one mebibyte.
pub const DEFAULT_MAX_FILE_SIZE: u64 = 1048576;

impl Default for IndexConfig {
    fn default() -> (r: IndexConfig)
        ensures
            r.max_file_size == DEFAULT_MAX_FILE_SIZE,
            views(r.ignore_patterns@) == seq![
                "node_modules"@,
                "target"@,
                "dist"@,
                "build"@,
                ".git"@,
                ".next"@,
                "coverage"@,
            ],
            views(r.include_extensions@) == seq!["ts"@, "tsx"@, "js"@, "jsx"@, "py"@, "rs"@, "css"@, "json"@],
    {
        let r = IndexConfig {
            max_file_size: DEFAULT_MAX_FILE_SIZE,
            ignore_patterns: vec![
                "node_modules".to_string(),
                "target".to_string(),
                "dist".to_string(),
                "build".to_string(),
                ".git".to_string(),
                ".next".to_string(),
                "coverage".to_string(),
            ],
            include_extensions: vec![
                "ts".to_string(),
                "tsx".to_string(),
                "js".to_string(),
                "jsx".to_string(),
                "py".to_string(),
                "rs".to_string(),
                "css".to_string(),
                "json".to_string(),
            ],
        };
        assert(views(r.ignore_patterns@) =~= seq![
            "node_modules"@,
            "target"@,
            "dist"@,
            "build"@,
            ".git"@,
            ".next"@,
            "coverage"@,
        ]);
        assert(views(r.include_extensions@) =~= seq!["ts"@, "tsx"@, "js"@, "jsx"@, "py"@, "rs"@, "css"@, "json"@]);
        r
    }
}

/// One file of a file map.
pub struct FileEntry {
    pub path: String,
    pub size: u64,
    pub language: String,
    pub is_binary: bool,
}

/// A light map of the project's files.
pub struct FileMap {
    pub files: Vec<FileEntry>,
}

/// The parent of a path, as `std::path::Path::parent` gives it; `None` for a root or an
/// empty path.
pub uninterp spec fn parent_of(path: Seq<char>) -> Option<Seq<char>>;

/// Relies on `std::path::Path::parent`: the result depends on the path's text alone.
#[verifier::external_body]
fn path_parent(path: &str) -> (r: Option<String>)
    ensures
        opt_str(r) == parent_of(path@),
{
    std::path::Path::new(path).parent().map(|p| p.to_string_lossy().to_string())
}

/// The distinct parents of the paths of `files`, in order of first appearance.
pub open spec fn directories_of(files: Seq<FileEntry>) -> Seq<Seq<char>>
    decreases files.len(),
{
    if files.len() == 0 {
        seq![]
    } else {
        let r = directories_of(files.drop_last());
        match parent_of(files.last().path@) {
            Some(d) => if r.contains(d) {
                r
            } else {
                r.push(d)
            },
            None => r,
        }
    }
}

impl FileMap {
    pub fn new() -> (r: FileMap)
        ensures
            r.files@.len() == 0,
    {
        FileMap { files: Vec::new() }
    }

    /// Adds a file at the end.
    pub fn add_file(&mut self, path: String, size: u64, language: String, is_binary: bool)
        ensures
            final(self).files@ == old(self).files@.push(FileEntry { path, size, language, is_binary }),
    {
        self.files.push(FileEntry { path, size, language, is_binary });
    }

    /// The distinct parent directories of the files, in order of first appearance.
    pub fn get_directories(&self) -> (r: Vec<String>)
        ensures
            views(r@) == directories_of(self.files@),
    {
        let mut dirs: Vec<String> = Vec::new();
        let n = self.files.len();
        let mut i: usize = 0;
        while i < n
            invariant
                n == self.files.len(),
                i <= n,
                views(dirs@) == directories_of(self.files@.subrange(0, i as int)),
            decreases n - i,
        {
            assert(self.files@.subrange(0, i + 1).drop_last() =~= self.files@.subrange(0, i as int));
            assert(self.files@.subrange(0, i + 1).last() == self.files@[i as int]);
            match path_parent(self.files[i].path.as_str()) {
                Some(d) => {
                    if !contains_text(&dirs, d.as_str()) {
                        let ghost before = dirs@;
                        dirs.push(d);
                        assert(views(dirs@) =~= views(before).push(d@));
                    }
                },
                None => {},
            }
            i = i + 1;
        }
        assert(self.files@.subrange(0, n as int) =~= self.files@);
        dirs
    }
}

} // verus!
