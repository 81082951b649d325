use vstd::prelude::*;

use crate::registry::views;
use crate::text::{join, joined};

verus! {

broadcast use vstd::seq::Seq::lemma_push_map_commute;

/// A file's parsed content, simplified for storage in the symbol graph.
pub struct ParsedFileData {
    pub symbols: Vec<SymbolData>,
    pub imports: Vec<ImportData>,
    pub design_tokens: Vec<DesignTokenData>,
    pub type_definitions: Vec<TypeDefinitionData>,
    pub constants: Vec<ConstantData>,
    pub schemas: Vec<SchemaData>,
    pub language: String,
}

pub struct SymbolData {
    pub name: String,
    pub kind: String,
    pub start_line: usize,
    pub end_line: usize,
    pub start_byte: usize,
    pub end_byte: usize,
    pub content: String,
    /// Serialized metadata.
    pub metadata: String,
    /// Comma-separated style tags.
    pub style_tags: Option<String>,
    pub children: Vec<SymbolData>,
    pub references: Vec<String>,
}

pub struct ImportData {
    pub source: String,
    pub names: Vec<String>,
    pub start_line: usize,
    pub end_line: usize,
}

pub struct DesignTokenData {
    pub token_type: String,
    pub name: String,
    pub value: String,
    pub context: String,
    pub start_line: usize,
    pub end_line: usize,
}

pub struct TypeDefinitionData {
    pub name: String,
    pub kind: String,
    pub definition: String,
    pub start_line: usize,
    pub end_line: usize,
}

pub struct ConstantData {
    pub name: String,
    pub value: String,
    pub category: String,
    pub start_line: usize,
    pub end_line: usize,
}

pub struct SchemaData {
    pub name: String,
    pub schema_type: String,
    pub definition: String,
    pub start_line: usize,
    pub end_line: usize,
}

/// Builds a symbol query with its parameters.
pub struct QueryBuilder {
    conditions: Vec<String>,
    params: Vec<String>,
}

/// The fixed part of every symbol query.
pub open spec fn query_head() -> Seq<char> {
    "SELECT s.id, s.name, s.kind, s.content, f.path, s.start_line, s.end_line FROM symbols s JOIN files f ON s.file_id = f.id "@
}

/// The query for `conditions`: the fixed part, then a WHERE clause joining them by AND
/// when there are any.
pub open spec fn query_text(conditions: Seq<Seq<char>>) -> Seq<char> {
    if conditions.len() == 0 {
        query_head()
    } else {
        query_head() + "WHERE "@ + joined(conditions, " AND "@)
    }
}

impl QueryBuilder {
    /// The conditions added so far, in order.
    pub closed spec fn conditions(&self) -> Seq<Seq<char>> {
        views(self.conditions@)
    }

    /// The parameters added so far, in order.
    pub closed spec fn params(&self) -> Seq<Seq<char>> {
        views(self.params@)
    }

    pub fn new() -> (r: QueryBuilder)
        ensures
            r.conditions().len() == 0,
            r.params().len() == 0,
    {
        let r = QueryBuilder { conditions: Vec::new(), params: Vec::new() };
        assert(views(r.conditions@) =~= Seq::<Seq<char>>::empty());
        assert(views(r.params@) =~= Seq::<Seq<char>>::empty());
        r
    }

    /// Adds a condition that the name contains `name`.
    pub fn with_name(self, name: &str) -> (r: QueryBuilder)
        ensures
            r.conditions() == self.conditions().push("s.name LIKE ?"@),
            r.params() == self.params().push("%"@ + name@ + "%"@),
    {
        let mut b = self;
        b.conditions.push("s.name LIKE ?".to_string());
        let mut p = "%".to_string();
        p.append(name);
        p.append("%");
        b.params.push(p);
        b
    }

    /// Adds a condition that the kind is `kind`.
    pub fn with_kind(self, kind: &str) -> (r: QueryBuilder)
        ensures
            r.conditions() == self.conditions().push("s.kind = ?"@),
            r.params() == self.params().push(kind@),
    {
        let mut b = self;
        b.conditions.push("s.kind = ?".to_string());
        b.params.push(kind.to_string());
        b
    }

    /// The query text and its parameters.
    pub fn build(&self) -> (r: (String, Vec<String>))
        ensures
            r.0@ == query_text(self.conditions()),
            views(r.1@) == self.params(),
    {
        let mut q = "SELECT s.id, s.name, s.kind, s.content, f.path, s.start_line, s.end_line FROM symbols s JOIN files f ON s.file_id = f.id ".to_string();
        if self.conditions.len() > 0 {
            q.append("WHERE ");
            let c = join(self.conditions.as_slice(), " AND ");
            q.append(c.as_str());
        }
        let mut ps: Vec<String> = Vec::new();
        let n = self.params.len();
        let mut i: usize = 0;
        while i < n
            invariant
                n == self.params.len(),
                i <= n,
                views(ps@) == views(self.params@).take(i as int),
            decreases n - i,
        {
            ps.push(self.params[i].clone());
            assert(views(ps@) =~= views(self.params@).take(i + 1));
            i = i + 1;
        }
        assert(views(self.params@).take(n as int) =~= views(self.params@));
        (q, ps)
    }
}

} // verus!
