//! Turning one source file into graph nodes and edges, and enriching the whole
//! graph afterwards.

use vstd::prelude::*;
use vstd::string::*;
use vstd::utf8::encode_utf8;
use crate::config::{lemma_views_push, path_file_name, path_file_name_of, path_parent, path_parent_of, views};
use crate::scanner::FileManifest;
use crate::text::{concat_strs, contains, decimal, occurs_at, opt_view, seq_contains, str_eq, to_lowercase, u64_to_decimal, unicode_lowercase};

verus! {

broadcast use vstd::string::group_string_axioms;

/// What is recorded about a node or an edge beyond its fixed fields; each
/// field stands for one key of the stored JSON object and is `None` when the
/// key is absent.
pub struct Metadata {
    /// "hash": the content hash of a file.
    pub hash: Option<String>,
    /// "size": the size of a file in bytes.
    pub size: Option<u64>,
    /// "path": the folder a module stands for.
    pub path: Option<String>,
    /// "method": whether a function is a method.
    pub method: Option<bool>,
    /// "complexity": the branch count of a function plus one.
    pub complexity: Option<i64>,
    /// "signature": the signature of a function, when one was recorded.
    pub signature: Option<String>,
    /// "hubScore": how many edges meet the node.
    pub hub_score: Option<i64>,
    /// "concerns": the cross-cutting concerns a function's name suggests.
    pub concerns: Option<Vec<String>>,
}

impl Metadata {
    /// No key is present.
    pub open spec fn is_empty(self) -> bool {
        &&& self.hash is None
        &&& self.size is None
        &&& self.path is None
        &&& self.method is None
        &&& self.complexity is None
        &&& self.signature is None
        &&& self.hub_score is None
        &&& self.concerns is None
    }

    /// The two objects hold the same keys with the same values.
    pub open spec fn same_as(self, other: Metadata) -> bool {
        &&& opt_view(self.hash) == opt_view(other.hash)
        &&& self.size == other.size
        &&& opt_view(self.path) == opt_view(other.path)
        &&& self.method == other.method
        &&& self.complexity == other.complexity
        &&& opt_view(self.signature) == opt_view(other.signature)
        &&& self.hub_score == other.hub_score
        &&& match (self.concerns, other.concerns) {
            (Some(a), Some(b)) => views(a@) == views(b@),
            (None, None) => true,
            _ => false,
        }
    }

    /// A copy of this object.
    pub fn duplicate(&self) -> (m: Metadata)
        ensures
            m.same_as(*self),
    {
        Metadata {
            hash: opt_clone(&self.hash),
            size: self.size,
            path: opt_clone(&self.path),
            method: self.method,
            complexity: self.complexity,
            signature: opt_clone(&self.signature),
            hub_score: self.hub_score,
            concerns: match &self.concerns {
                Some(list) => Some(clone_strings(list)),
                None => None,
            },
        }
    }

    /// An empty object.
    pub fn empty() -> (m: Metadata)
        ensures
            m.is_empty(),
    {
        Metadata {
            hash: None,
            size: None,
            path: None,
            method: None,
            complexity: None,
            signature: None,
            hub_score: None,
            concerns: None,
        }
    }
}

pub struct GraphNode {
    pub id: String,
    pub node_type: String,
    pub name: String,
    pub file_path: Option<String>,
    pub start_line: Option<i64>,
    pub end_line: Option<i64>,
    pub language: Option<String>,
    pub metadata: Metadata,
}

pub struct GraphEdge {
    pub source_id: String,
    pub target_id: String,
    pub edge_type: String,
    pub metadata: Metadata,
}

pub struct Graph {
    pub nodes: Vec<GraphNode>,
    pub edges: Vec<GraphEdge>,
}

/// A file that could not be parsed.
pub struct ParseError {
    pub file_path: String,
    pub language: String,
    pub error: String,
}

pub struct Import {
    pub import_id: String,
    pub source: String,
    pub line: usize,
}

pub struct Function {
    pub id: String,
    pub name: String,
    pub file_path: String,
}

/// A group of nodes that belong together.
pub struct Community {
    pub id: i64,
    pub label: String,
    pub node_ids: Vec<String>,
}

/// A node of a syntax tree, as much of it as graph building reads.
pub struct SyntaxNode {
    /// The grammar's name for the node ("function_declaration", ...).
    pub kind: String,
    /// The text of the node's "name" field, when it has one.
    pub name: Option<String>,
    /// Zero-based row and column where the node starts.
    pub start_row: u32,
    pub start_column: u32,
    /// Zero-based row where the node ends.
    pub end_row: u32,
    pub children: Vec<SyntaxNode>,
}

/// The grammars this tool parses with.
pub enum Grammar {
    JavaScript,
    TypeScript,
    Python,
    Bash,
    Rust,
}

/// What parsing a file gave.
pub enum TreeParse {
    /// The parser refused the grammar.
    LanguageRejected,
    /// The parser produced no tree.
    Failed,
    /// The root of the syntax tree.
    Parsed(SyntaxNode),
}

/// The result of parsing `source` with tree-sitter and `grammar`.
pub uninterp spec fn tree_sitter_parse(grammar: Grammar, source: Seq<char>) -> TreeParse;

/// `tree_sitter::TreeCursor`, used only inside the parsing wrappers.
#[verifier::external_type_specification]
#[verifier::external_body]
pub struct ExTreeCursor<'tree>(tree_sitter::TreeCursor<'tree>);

/// Copies the node under a tree-sitter cursor and everything below it into a
/// `SyntaxNode`: `Node::kind`, the text of `Node::child_by_field_name("name")`
/// (none when it is not valid UTF-8), the start and end positions (tree-sitter
/// keeps them as 32-bit values), and the children in order, which it visits
/// with `goto_first_child`, `goto_next_sibling` and `goto_parent`, leaving the
/// cursor where it found it. Nothing is stated of the copy here: `parse_tree`
/// names the whole tree it belongs to.
#[verifier::external_body]
fn syntax_node_at(cursor: &mut tree_sitter::TreeCursor, source: &str) -> SyntaxNode {
    let node = cursor.node();
    let mut children = Vec::new();
    if cursor.goto_first_child() {
        children.push(syntax_node_at(cursor, source));
        while cursor.goto_next_sibling() {
            children.push(syntax_node_at(cursor, source));
        }
        cursor.goto_parent();
    }
    let name = node.child_by_field_name("name").and_then(|n| n.utf8_text(source.as_bytes()).ok());
    let (start, end) = (node.start_position(), node.end_position());
    let (start_row, start_column, end_row) = (start.row as u32, start.column as u32, end.row as u32);
    SyntaxNode { kind: node.kind().to_string(), name: name.map(|t| t.to_string()), start_row, start_column, end_row, children }
}

/// Parses `source` with tree-sitter: `Parser::new`, `Parser::set_language`
/// with the grammar's `LANGUAGE` (an error gives `LanguageRejected`), then
/// `Parser::parse` (`None` gives `Failed`). The tree is taken to depend on the
/// grammar and the source alone.
#[verifier::external_body]
fn parse_tree(grammar: Grammar, source: &str) -> (t: TreeParse)
    ensures
        t == tree_sitter_parse(grammar, source@),
{
    let language: tree_sitter::Language = match grammar {
        Grammar::JavaScript => tree_sitter_javascript::LANGUAGE.into(),
        Grammar::TypeScript => tree_sitter_typescript::LANGUAGE_TYPESCRIPT.into(),
        Grammar::Python => tree_sitter_python::LANGUAGE.into(),
        Grammar::Bash => tree_sitter_bash::LANGUAGE.into(),
        Grammar::Rust => tree_sitter_rust::LANGUAGE.into(),
    };
    let mut parser = tree_sitter::Parser::new();
    if parser.set_language(&language).is_err() {
        return TreeParse::LanguageRejected;
    }
    parser.parse(source, None).map_or(TreeParse::Failed, |tree| TreeParse::Parsed(syntax_node_at(&mut tree.walk(), source)))
}

/// The grammar a language name selects.
pub open spec fn spec_grammar_for(language: Seq<char>) -> Option<Grammar> {
    if language == "javascript"@ {
        Some(Grammar::JavaScript)
    } else if language == "typescript"@ {
        Some(Grammar::TypeScript)
    } else if language == "python"@ {
        Some(Grammar::Python)
    } else if language == "bash"@ {
        Some(Grammar::Bash)
    } else if language == "rust"@ {
        Some(Grammar::Rust)
    } else {
        None
    }
}

/// The grammar for a language name, `None` for languages this tool does not parse.
pub fn grammar_for(language: &str) -> (g: Option<Grammar>)
    ensures
        g == spec_grammar_for(language@),
{
    if str_eq(language, "javascript") {
        Some(Grammar::JavaScript)
    } else if str_eq(language, "typescript") {
        Some(Grammar::TypeScript)
    } else if str_eq(language, "python") {
        Some(Grammar::Python)
    } else if str_eq(language, "bash") {
        Some(Grammar::Bash)
    } else if str_eq(language, "rust") {
        Some(Grammar::Rust)
    } else {
        None
    }
}

/// The number of newline bytes.
pub open spec fn count_newlines(b: Seq<u8>) -> nat
    decreases b.len(),
{
    if b.len() == 0 {
        0
    } else {
        count_newlines(b.drop_last()) + if b.last() == 10u8 { 1nat } else { 0nat }
    }
}

proof fn lemma_count_newlines_bound(b: Seq<u8>)
    ensures
        count_newlines(b) <= b.len(),
    decreases b.len(),
{
    if b.len() > 0 {
        lemma_count_newlines_bound(b.drop_last());
    }
}

/// The number of lines `str::lines` yields for text with these bytes: one per
/// newline, plus one for a last line that has no newline after it.
pub open spec fn spec_line_count(b: Seq<u8>) -> nat {
    if b.len() == 0 {
        0
    } else if b.last() == 10u8 {
        count_newlines(b)
    } else {
        count_newlines(b) + 1
    }
}

/// The number of lines of a text, as `str::lines().count()` gives it.
pub fn line_count(text: &str) -> (n: usize)
    ensures
        n == spec_line_count(encode_utf8(text@)),
{
    let bytes = text.as_bytes();
    let len = bytes.len();
    let mut count: usize = 0;
    for i in 0..len
        invariant
            len == bytes@.len(),
            bytes@ == encode_utf8(text@),
            count == count_newlines(bytes@.take(i as int)),
            count <= i,
    {
        assert(bytes@.take(i as int + 1).drop_last() =~= bytes@.take(i as int));
        if bytes[i] == 10u8 {
            count = count + 1;
        }
    }
    assert(bytes@.take(len as int) =~= bytes@);
    if len > 0 && bytes[len - 1] != 10u8 {
        proof {
            lemma_count_newlines_bound(bytes@.drop_last());
        }
    }
    if len == 0 || bytes[len - 1] == 10u8 {
        count
    } else {
        count + 1
    }
}

pub open spec fn file_node_id(file_path: Seq<char>) -> Seq<char> {
    "file:"@ + file_path
}

/// The folder a file lies in, "." when its path has no parent.
pub open spec fn module_path_of(file_path: Seq<char>) -> Seq<char> {
    match path_parent_of(file_path) {
        Some(p) => p,
        None => "."@,
    }
}

pub open spec fn module_node_id(file_path: Seq<char>) -> Seq<char> {
    "module:"@ + module_path_of(file_path)
}

/// The last component of a file's path, empty when it has none.
pub open spec fn file_display_name(file_path: Seq<char>) -> Seq<char> {
    match path_file_name_of(file_path) {
        Some(n) => n,
        None => Seq::empty(),
    }
}

/// The line count recorded for a file.
pub open spec fn file_line_count(item: FileManifest) -> i64 {
    spec_line_count(encode_utf8(item.content@)) as i64
}

/// The node that stands for the file itself.
pub open spec fn is_file_node(n: GraphNode, item: FileManifest) -> bool {
    &&& n.id@ == file_node_id(item.file_path@)
    &&& n.node_type@ == "FILE"@
    &&& n.name@ == file_display_name(item.file_path@)
    &&& opt_view(n.file_path) == Some(item.file_path@)
    &&& n.start_line == Some(1i64)
    &&& n.end_line == Some(file_line_count(item))
    &&& opt_view(n.language) == Some(item.language@)
    &&& opt_view(n.metadata.hash) == Some(item.content_hash@)
    &&& n.metadata.size == Some(item.size)
    &&& n.metadata.path is None
    &&& n.metadata.method is None
    &&& n.metadata.complexity is None
    &&& n.metadata.signature is None
    &&& n.metadata.hub_score is None
    &&& n.metadata.concerns is None
}

/// The node that stands for the folder the file lies in.
pub open spec fn is_module_node(n: GraphNode, item: FileManifest) -> bool {
    &&& n.id@ == module_node_id(item.file_path@)
    &&& n.node_type@ == "MODULE"@
    &&& n.name@ == module_path_of(item.file_path@)
    &&& opt_view(n.file_path) == Some(item.file_path@)
    &&& n.start_line == Some(1i64)
    &&& n.end_line == Some(file_line_count(item))
    &&& opt_view(n.language) == Some(item.language@)
    &&& opt_view(n.metadata.path) == Some(module_path_of(item.file_path@))
    &&& n.metadata.hash is None
    &&& n.metadata.size is None
    &&& n.metadata.method is None
    &&& n.metadata.complexity is None
    &&& n.metadata.signature is None
    &&& n.metadata.hub_score is None
    &&& n.metadata.concerns is None
}

/// The module contains the file.
pub open spec fn is_contains_edge(e: GraphEdge, item: FileManifest) -> bool {
    &&& e.source_id@ == module_node_id(item.file_path@)
    &&& e.target_id@ == file_node_id(item.file_path@)
    &&& e.edge_type@ == "CONTAINS"@
    &&& e.metadata.is_empty()
}

/// How a top-level syntax node is recorded.
pub enum DefinitionKind {
    Function,
    Method,
    Class,
    Other,
}

pub open spec fn spec_definition_kind(kind: Seq<char>) -> DefinitionKind {
    if kind == "function_declaration"@ || kind == "generator_function_declaration"@
        || kind == "function_definition"@ {
        DefinitionKind::Function
    } else if kind == "method_definition"@ {
        DefinitionKind::Method
    } else if kind == "class_declaration"@ || kind == "class_definition"@ {
        DefinitionKind::Class
    } else {
        DefinitionKind::Other
    }
}

/// How a syntax node of this kind is recorded, when it stands at the top level.
pub fn definition_kind(kind: &str) -> (k: DefinitionKind)
    ensures
        k == spec_definition_kind(kind@),
{
    if str_eq(kind, "function_declaration") || str_eq(kind, "generator_function_declaration")
        || str_eq(kind, "function_definition") {
        DefinitionKind::Function
    } else if str_eq(kind, "method_definition") {
        DefinitionKind::Method
    } else if str_eq(kind, "class_declaration") || str_eq(kind, "class_definition") {
        DefinitionKind::Class
    } else {
        DefinitionKind::Other
    }
}

/// A top-level syntax node that becomes a function or class node.
pub open spec fn is_definition(c: SyntaxNode) -> bool {
    !(spec_definition_kind(c.kind@) is Other)
}

/// The top-level syntax nodes that become nodes of the graph, in order.
pub open spec fn definitions(root: SyntaxNode) -> Seq<SyntaxNode> {
    root.children@.filter(definition_filter())
}

pub open spec fn definition_filter() -> spec_fn(SyntaxNode) -> bool {
    |c: SyntaxNode| is_definition(c)
}

/// The syntax node kinds that add one to a function's complexity.
pub open spec fn is_branch_kind(kind: Seq<char>) -> bool {
    ||| kind == "if_statement"@
    ||| kind == "for_statement"@
    ||| kind == "while_statement"@
    ||| kind == "switch_statement"@
    ||| kind == "case_statement"@
    ||| kind == "try_statement"@
    ||| kind == "catch_clause"@
    ||| kind == "conditional_expression"@
}

/// The number of branching nodes in a syntax tree, its root included.
pub open spec fn branch_count(n: SyntaxNode) -> nat
    decreases n, 1nat,
{
    (if is_branch_kind(n.kind@) { 1nat } else { 0nat }) + branch_count_all(n.children@)
}

/// The number of branching nodes in a sequence of syntax trees.
pub open spec fn branch_count_all(s: Seq<SyntaxNode>) -> nat
    decreases s, 0nat,
{
    if s.len() == 0 {
        0
    } else {
        branch_count_all(s.drop_last()) + branch_count(s.last())
    }
}

/// `x`, or `i64::MAX` when `x` is larger.
pub open spec fn capped(x: int) -> i64 {
    if x > i64::MAX { i64::MAX } else { x as i64 }
}

proof fn lemma_capped_add(a: int, b: int)
    requires
        a >= 0,
        b >= 0,
    ensures
        capped(capped(a) + b) == capped(a + b),
{
}

/// A function's complexity: one plus its branching nodes (at most `i64::MAX`).
pub open spec fn spec_complexity(n: SyntaxNode) -> i64 {
    capped(1 + branch_count(n) as int)
}

fn is_branch_kind_exec(kind: &str) -> (r: bool)
    ensures
        r == is_branch_kind(kind@),
{
    str_eq(kind, "if_statement") || str_eq(kind, "for_statement")
        || str_eq(kind, "while_statement") || str_eq(kind, "switch_statement")
        || str_eq(kind, "case_statement") || str_eq(kind, "try_statement")
        || str_eq(kind, "catch_clause") || str_eq(kind, "conditional_expression")
}

/// Adds the branching nodes of `n` to `count`, stopping at `i64::MAX`.
fn add_branches(n: &SyntaxNode, count: &mut i64)
    requires
        *old(count) >= 0,
    ensures
        *final(count) == capped(*old(count) + branch_count(*n)),
    decreases n,
{
    if is_branch_kind_exec(n.kind.as_str()) {
        if *count < i64::MAX {
            *count = *count + 1;
        }
    }
    let ghost own: int = if is_branch_kind(n.kind@) { 1 } else { 0 };
    let ghost start: int = *old(count) as int;
    let k = n.children.len();
    for i in 0..k
        invariant
            k == n.children@.len(),
            start >= 0,
            own == 0 || own == 1,
            *count >= 0,
            *count == capped(start + own + branch_count_all(n.children@.take(i as int))),
    {
        assert(n.children@.take(i as int + 1).drop_last() =~= n.children@.take(i as int));
        assert(decreases_to!(n => n.children@[i as int]));
        add_branches(&n.children[i], count);
        proof {
            lemma_capped_add(start + own + branch_count_all(n.children@.take(i as int)),
                branch_count(n.children@[i as int]) as int);
        }
    }
    assert(n.children@.take(k as int) =~= n.children@);
}

/// The complexity of a function: 1 plus the number of branching syntax nodes
/// (if, for, while, switch, case, try, catch, conditional) at or under it.
pub fn count_complexity(n: &SyntaxNode) -> (c: i64)
    ensures
        c == spec_complexity(*n),
{
    let mut c: i64 = 1;
    add_branches(n, &mut c);
    c
}

/// The name recorded for a function: its "name" field, or "anonymous_" and
/// its (one-based) line.
pub open spec fn function_name(c: SyntaxNode) -> Seq<char> {
    match c.name {
        Some(n) => n@,
        None => "anonymous_"@ + decimal(c.start_row as nat + 1),
    }
}

/// The name recorded for a class: its "name" field, or "class_" and its line.
pub open spec fn class_name(c: SyntaxNode) -> Seq<char> {
    match c.name {
        Some(n) => n@,
        None => "class_"@ + decimal(c.start_row as nat + 1),
    }
}

/// "function:<file>:<name>:<line>:<column>", line and column one-based.
pub open spec fn function_node_id(file_path: Seq<char>, c: SyntaxNode) -> Seq<char> {
    "function:"@ + file_path + ":"@ + function_name(c) + ":"@ + decimal(c.start_row as nat + 1)
        + ":"@ + decimal(c.start_column as nat + 1)
}

/// "class:<file>:<name>:<line>", the line one-based.
pub open spec fn class_node_id(file_path: Seq<char>, c: SyntaxNode) -> Seq<char> {
    "class:"@ + file_path + ":"@ + class_name(c) + ":"@ + decimal(c.start_row as nat + 1)
}

pub open spec fn definition_node_id(file_path: Seq<char>, c: SyntaxNode) -> Seq<char> {
    if spec_definition_kind(c.kind@) is Class {
        class_node_id(file_path, c)
    } else {
        function_node_id(file_path, c)
    }
}

/// The node recorded for a top-level function, method or class.
pub open spec fn is_definition_node(n: GraphNode, item: FileManifest, c: SyntaxNode) -> bool {
    &&& opt_view(n.file_path) == Some(item.file_path@)
    &&& n.start_line == Some((c.start_row + 1) as i64)
    &&& n.end_line == Some((c.end_row + 1) as i64)
    &&& opt_view(n.language) == Some(item.language@)
    &&& match spec_definition_kind(c.kind@) {
        DefinitionKind::Class => {
            &&& n.id@ == class_node_id(item.file_path@, c)
            &&& n.node_type@ == "CLASS"@
            &&& n.name@ == class_name(c)
            &&& n.metadata.is_empty()
        },
        DefinitionKind::Other => false,
        _ => {
            &&& n.id@ == function_node_id(item.file_path@, c)
            &&& n.node_type@ == "FUNCTION"@
            &&& n.name@ == function_name(c)
            &&& n.metadata.method == Some(spec_definition_kind(c.kind@) is Method)
            &&& n.metadata.complexity == Some(spec_complexity(c))
            &&& n.metadata.hash is None
            &&& n.metadata.size is None
            &&& n.metadata.path is None
            &&& n.metadata.signature is None
            &&& n.metadata.hub_score is None
            &&& n.metadata.concerns is None
        },
    }
}

/// The file defines the function or class.
pub open spec fn is_defines_edge(e: GraphEdge, item: FileManifest, c: SyntaxNode) -> bool {
    &&& e.source_id@ == file_node_id(item.file_path@)
    &&& e.target_id@ == definition_node_id(item.file_path@, c)
    &&& e.edge_type@ == "DEFINES"@
    &&& e.metadata.is_empty()
}

/// The file node, the module node, and the edge from the module to the file,
/// followed by one node and one edge for each of `defs`.
pub open spec fn is_file_graph(g: Graph, item: FileManifest, defs: Seq<SyntaxNode>) -> bool {
    &&& g.nodes@.len() == 2 + defs.len()
    &&& g.edges@.len() == 1 + defs.len()
    &&& is_file_node(g.nodes@[0], item)
    &&& is_module_node(g.nodes@[1], item)
    &&& is_contains_edge(g.edges@[0], item)
    &&& forall|k: int| 0 <= k < defs.len() ==> is_definition_node(#[trigger] g.nodes@[2 + k], item, defs[k])
    &&& forall|k: int| 0 <= k < defs.len() ==> is_defines_edge(#[trigger] g.edges@[1 + k], item, defs[k])
}

/// The graph built for a file from what parsing it gave: nothing when the
/// grammar was refused, the file and its module when no tree came back, and
/// besides them every top-level function, method and class of the tree.
pub open spec fn is_graph_of_parse(g: Graph, item: FileManifest, outcome: TreeParse) -> bool {
    match outcome {
        TreeParse::LanguageRejected => g.nodes@.len() == 0 && g.edges@.len() == 0,
        TreeParse::Failed => is_file_graph(g, item, Seq::empty()),
        TreeParse::Parsed(root) => is_file_graph(g, item, definitions(root)),
    }
}

/// One more error was recorded, for this file: "Parse failed".
pub open spec fn records_parse_failure(before: Seq<ParseError>, after: Seq<ParseError>, item: FileManifest) -> bool {
    &&& after.len() == before.len() + 1
    &&& after.take(before.len() as int) == before
    &&& after.last().file_path@ == item.file_path@
    &&& after.last().language@ == item.language@
    &&& after.last().error@ == "Parse failed"@
}

/// A copy of a list of strings.
pub fn clone_strings(v: &Vec<String>) -> (r: Vec<String>)
    ensures
        views(r@) == views(v@),
{
    let mut r: Vec<String> = Vec::new();
    for i in 0..v.len()
        invariant
            views(r@) == views(v@).take(i as int),
    {
        let ghost prev = r@;
        let s = v[i].clone();
        r.push(s);
        proof { lemma_views_push(prev, s); }
        assert(views(r@) =~= views(v@).take(i as int + 1));
    }
    assert(views(v@).take(v@.len() as int) =~= views(v@));
    r
}

pub fn opt_clone(o: &Option<String>) -> (r: Option<String>)
    ensures
        opt_view(r) == opt_view(*o),
{
    match o {
        Some(s) => Some(s.clone()),
        None => None,
    }
}

/// The file node and the module node of a file, and the edge between them.
fn file_skeleton(item: &FileManifest) -> (g: Graph)
    ensures
        is_file_graph(g, *item, Seq::empty()),
{
    let fp = item.file_path.as_str();
    let file_id = concat_strs("file:", fp);
    let folder = match path_parent(fp) {
        Some(p) => p,
        None => String::from_str("."),
    };
    let module_id = concat_strs("module:", folder.as_str());
    let lines = line_count(item.content.as_str()) as i64;
    let name = match path_file_name(fp) {
        Some(n) => n,
        None => String::new(),
    };
    let mut file_meta = Metadata::empty();
    file_meta.hash = Some(item.content_hash.clone());
    file_meta.size = Some(item.size);
    let mut module_meta = Metadata::empty();
    module_meta.path = Some(folder.clone());
    let mut nodes: Vec<GraphNode> = Vec::new();
    nodes.push(GraphNode {
        id: file_id.clone(),
        node_type: String::from_str("FILE"),
        name,
        file_path: Some(item.file_path.clone()),
        start_line: Some(1),
        end_line: Some(lines),
        language: Some(item.language.clone()),
        metadata: file_meta,
    });
    nodes.push(GraphNode {
        id: module_id.clone(),
        node_type: String::from_str("MODULE"),
        name: folder,
        file_path: Some(item.file_path.clone()),
        start_line: Some(1),
        end_line: Some(lines),
        language: Some(item.language.clone()),
        metadata: module_meta,
    });
    let mut edges: Vec<GraphEdge> = Vec::new();
    edges.push(GraphEdge {
        source_id: module_id,
        target_id: file_id,
        edge_type: String::from_str("CONTAINS"),
        metadata: Metadata::empty(),
    });
    Graph { nodes, edges }
}

/// Records a top-level function or method: a FUNCTION node and a DEFINES edge
/// from the file.
fn handle_function(
    node: &SyntaxNode,
    item: &FileManifest,
    nodes: &mut Vec<GraphNode>,
    edges: &mut Vec<GraphEdge>,
    is_method: bool,
)
    requires
        spec_definition_kind(node.kind@) is Function || spec_definition_kind(node.kind@) is Method,
        is_method == spec_definition_kind(node.kind@) is Method,
    ensures
        final(nodes)@.len() == old(nodes)@.len() + 1,
        final(nodes)@.take(old(nodes)@.len() as int) == old(nodes)@,
        is_definition_node(final(nodes)@.last(), *item, *node),
        final(edges)@.len() == old(edges)@.len() + 1,
        final(edges)@.take(old(edges)@.len() as int) == old(edges)@,
        is_defines_edge(final(edges)@.last(), *item, *node),
{
    let line = u64_to_decimal(node.start_row as u64 + 1);
    let column = u64_to_decimal(node.start_column as u64 + 1);
    let name = match &node.name {
        Some(n) => n.clone(),
        None => concat_strs("anonymous_", line.as_str()),
    };
    let fp = item.file_path.as_str();
    let id = concat_strs(concat_strs(concat_strs(concat_strs(concat_strs(concat_strs(concat_strs("function:", fp).as_str(), ":").as_str(),
        name.as_str()).as_str(), ":").as_str(), line.as_str()).as_str(), ":").as_str(), column.as_str());
    let mut meta = Metadata::empty();
    meta.method = Some(is_method);
    meta.complexity = Some(count_complexity(node));
    let ghost old_nodes = nodes@;
    let ghost old_edges = edges@;
    nodes.push(GraphNode {
        id: id.clone(),
        node_type: String::from_str("FUNCTION"),
        name,
        file_path: Some(item.file_path.clone()),
        start_line: Some((node.start_row as i64) + 1),
        end_line: Some((node.end_row as i64) + 1),
        language: Some(item.language.clone()),
        metadata: meta,
    });
    edges.push(GraphEdge {
        source_id: concat_strs("file:", fp),
        target_id: id,
        edge_type: String::from_str("DEFINES"),
        metadata: Metadata::empty(),
    });
    assert(nodes@.take(old_nodes.len() as int) =~= old_nodes);
    assert(edges@.take(old_edges.len() as int) =~= old_edges);
}

/// Records a top-level class: a CLASS node and a DEFINES edge from the file.
fn handle_class(
    node: &SyntaxNode,
    item: &FileManifest,
    nodes: &mut Vec<GraphNode>,
    edges: &mut Vec<GraphEdge>,
)
    requires
        spec_definition_kind(node.kind@) is Class,
    ensures
        final(nodes)@.len() == old(nodes)@.len() + 1,
        final(nodes)@.take(old(nodes)@.len() as int) == old(nodes)@,
        is_definition_node(final(nodes)@.last(), *item, *node),
        final(edges)@.len() == old(edges)@.len() + 1,
        final(edges)@.take(old(edges)@.len() as int) == old(edges)@,
        is_defines_edge(final(edges)@.last(), *item, *node),
{
    let line = u64_to_decimal(node.start_row as u64 + 1);
    let name = match &node.name {
        Some(n) => n.clone(),
        None => concat_strs("class_", line.as_str()),
    };
    let fp = item.file_path.as_str();
    let id = concat_strs(concat_strs(concat_strs(concat_strs(concat_strs("class:", fp).as_str(), ":").as_str(),
        name.as_str()).as_str(), ":").as_str(), line.as_str());
    let ghost old_nodes = nodes@;
    let ghost old_edges = edges@;
    nodes.push(GraphNode {
        id: id.clone(),
        node_type: String::from_str("CLASS"),
        name,
        file_path: Some(item.file_path.clone()),
        start_line: Some((node.start_row as i64) + 1),
        end_line: Some((node.end_row as i64) + 1),
        language: Some(item.language.clone()),
        metadata: Metadata::empty(),
    });
    edges.push(GraphEdge {
        source_id: concat_strs("file:", fp),
        target_id: id,
        edge_type: String::from_str("DEFINES"),
        metadata: Metadata::empty(),
    });
    assert(nodes@.take(old_nodes.len() as int) =~= old_nodes);
    assert(edges@.take(old_edges.len() as int) =~= old_edges);
}

/// Records every top-level function, method and class under `root`.
fn walk_tree(root: &SyntaxNode, item: &FileManifest, g: &mut Graph)
    requires
        is_file_graph(*old(g), *item, Seq::empty()),
    ensures
        is_file_graph(*final(g), *item, definitions(*root)),
{
    let k = root.children.len();
    for i in 0..k
        invariant
            k == root.children@.len(),
            is_file_graph(*g, *item, root.children@.take(i as int).filter(definition_filter())),
    {
        let child = &root.children[i];
        let ghost defs = root.children@.take(i as int).filter(definition_filter());
        proof {
            assert(root.children@.take(i as int + 1) == root.children@.take(i as int).push(*child));
            root.children@.take(i as int).lemma_filter_push(*child, definition_filter());
        }
        let kind = definition_kind(child.kind.as_str());
        match kind {
            DefinitionKind::Function => {
                handle_function(child, item, &mut g.nodes, &mut g.edges, false);
            },
            DefinitionKind::Method => {
                handle_function(child, item, &mut g.nodes, &mut g.edges, true);
            },
            DefinitionKind::Class => {
                handle_class(child, item, &mut g.nodes, &mut g.edges);
            },
            DefinitionKind::Other => {},
        }
        proof {
            let nd = root.children@.take(i as int + 1).filter(definition_filter());
            if is_definition(*child) {
                assert(nd == defs.push(*child));
                assert forall|q: int| 0 <= q < nd.len() implies is_definition_node(#[trigger] g.nodes@[2 + q], *item, nd[q]) by {
                    if q < defs.len() {
                        assert(g.nodes@[2 + q] == g.nodes@.take(2 + defs.len() as int)[2 + q]);
                    }
                }
                assert forall|q: int| 0 <= q < nd.len() implies is_defines_edge(#[trigger] g.edges@[1 + q], *item, nd[q]) by {
                    if q < defs.len() {
                        assert(g.edges@[1 + q] == g.edges@.take(1 + defs.len() as int)[1 + q]);
                    }
                }
            }
        }
    }
    proof {
        assert(root.children@.take(k as int) =~= root.children@);
    }
}

/// The graph of a file given what parsing it gave; a failed parse also records
/// a parse error.
pub fn graph_from_parse(item: &FileManifest, outcome: &TreeParse, parse_errors: &mut Vec<ParseError>) -> (g: Graph)
    ensures
        is_graph_of_parse(g, *item, *outcome),
        *outcome is Failed ==> records_parse_failure(old(parse_errors)@, final(parse_errors)@, *item),
        !(*outcome is Failed) ==> final(parse_errors)@ == old(parse_errors)@,
{
    match outcome {
        TreeParse::LanguageRejected => Graph { nodes: Vec::new(), edges: Vec::new() },
        TreeParse::Failed => {
            let g = file_skeleton(item);
            let ghost before = parse_errors@;
            parse_errors.push(ParseError {
                file_path: item.file_path.clone(),
                language: item.language.clone(),
                error: String::from_str("Parse failed"),
            });
            assert(parse_errors@.take(before.len() as int) =~= before);
            g
        },
        TreeParse::Parsed(root) => {
            let mut g = file_skeleton(item);
            walk_tree(root, item, &mut g);
            g
        },
    }
}

/// The graph of one source file: nothing for a language without a grammar,
/// otherwise the graph of what tree-sitter gives for its content.
pub fn parse_file(item: &FileManifest, parse_errors: &mut Vec<ParseError>) -> (g: Graph)
    ensures
        match spec_grammar_for(item.language@) {
            None => g.nodes@.len() == 0 && g.edges@.len() == 0 && final(parse_errors)@ == old(parse_errors)@,
            Some(grammar) => {
                let outcome = tree_sitter_parse(grammar, item.content@);
                &&& is_graph_of_parse(g, *item, outcome)
                &&& outcome is Failed ==> records_parse_failure(old(parse_errors)@, final(parse_errors)@, *item)
                &&& !(outcome is Failed) ==> final(parse_errors)@ == old(parse_errors)@
            },
        },
{
    match grammar_for(item.language.as_str()) {
        None => Graph { nodes: Vec::new(), edges: Vec::new() },
        Some(grammar) => {
            let outcome = parse_tree(grammar, item.content.as_str());
            graph_from_parse(item, &outcome, parse_errors)
        },
    }
}

/// The text a function's concerns are read from: its lowercased name, a space,
/// and its recorded signature (empty when there is none).
pub open spec fn concern_text(n: GraphNode) -> Seq<char> {
    unicode_lowercase(n.name@) + " "@ + match n.metadata.signature {
        Some(sig) => sig@,
        None => Seq::empty(),
    }
}

/// The concerns a text suggests, in this order: "logging" (it mentions "log" or
/// "debug"), "auth" ("auth" or "token"), "error" ("error" or "exception").
pub open spec fn spec_concerns(text: Seq<char>) -> Seq<Seq<char>> {
    (if seq_contains(text, "log"@) || seq_contains(text, "debug"@) { seq!["logging"@] } else { seq![] })
    + (if seq_contains(text, "auth"@) || seq_contains(text, "token"@) { seq!["auth"@] } else { seq![] })
    + (if seq_contains(text, "error"@) || seq_contains(text, "exception"@) { seq!["error"@] } else { seq![] })
}

/// Whether the concerns a function's text suggests are recorded on it.
pub open spec fn gets_concerns(n: GraphNode) -> bool {
    n.node_type@ == "FUNCTION"@ && spec_concerns(concern_text(n)).len() > 0
}

/// `after` is `before` with a hub score of 0 and, for a function whose text
/// suggests concerns, those concerns; nothing else changes.
pub open spec fn is_enriched(after: GraphNode, before: GraphNode) -> bool {
    &&& after.id == before.id
    &&& after.node_type == before.node_type
    &&& after.name == before.name
    &&& after.file_path == before.file_path
    &&& after.start_line == before.start_line
    &&& after.end_line == before.end_line
    &&& after.language == before.language
    &&& after.metadata.hash == before.metadata.hash
    &&& after.metadata.size == before.metadata.size
    &&& after.metadata.path == before.metadata.path
    &&& after.metadata.method == before.metadata.method
    &&& after.metadata.complexity == before.metadata.complexity
    &&& after.metadata.signature == before.metadata.signature
    &&& after.metadata.hub_score == Some(0i64)
    &&& if gets_concerns(before) {
        &&& after.metadata.concerns is Some
        &&& views(after.metadata.concerns.unwrap()@) == spec_concerns(concern_text(before))
    } else {
        after.metadata.concerns == before.metadata.concerns
    }
}

pub open spec fn module_filter() -> spec_fn(GraphNode) -> bool {
    |n: GraphNode| n.node_type@ == "MODULE"@
}

/// The module nodes, in order.
pub open spec fn module_nodes(nodes: Seq<GraphNode>) -> Seq<GraphNode> {
    nodes.filter(module_filter())
}

/// The community of the `k`-th module (counting from 0): numbered `k + 1`,
/// labelled with the module's name, holding just the module.
pub open spec fn is_module_community(c: Community, m: GraphNode, k: int) -> bool {
    &&& c.id == (k + 1) as i64
    &&& c.label@ == m.name@
    &&& views(c.node_ids@) == seq![m.id@]
}

/// The concerns the text suggests, as strings.
pub fn concerns_of(text: &str) -> (cs: Vec<String>)
    ensures
        views(cs@) == spec_concerns(text@),
{
    let mut cs: Vec<String> = Vec::new();
    if contains(text, "log") || contains(text, "debug") {
        cs.push(String::from_str("logging"));
    }
    let ghost first = views(cs@);
    if contains(text, "auth") || contains(text, "token") {
        let ghost prev = cs@;
        let c = String::from_str("auth");
        cs.push(c);
        proof { lemma_views_push(prev, c); }
    }
    let ghost second = views(cs@);
    if contains(text, "error") || contains(text, "exception") {
        let ghost prev = cs@;
        let c = String::from_str("error");
        cs.push(c);
        proof { lemma_views_push(prev, c); }
    }
    assert(views(cs@) =~= spec_concerns(text@));
    cs
}

/// Adds what is known about each node after all files were parsed: every node
/// gets a hub score (no edges are counted yet, so it is 0), every function whose
/// name or signature suggests logging, authentication or error handling gets
/// those concerns, and every module gets a community of its own, appended to
/// `communities` in the order of the nodes.
pub fn enrich_graph(nodes: &mut Vec<GraphNode>, _edges: &[GraphEdge], communities: &mut Vec<Community>)
    ensures
        final(nodes)@.len() == old(nodes)@.len(),
        forall|i: int| 0 <= i < old(nodes)@.len() ==> is_enriched(#[trigger] final(nodes)@[i], old(nodes)@[i]),
        final(communities)@.len() == old(communities)@.len() + module_nodes(final(nodes)@).len(),
        final(communities)@.take(old(communities)@.len() as int) == old(communities)@,
        forall|k: int| 0 <= k < module_nodes(final(nodes)@).len() ==> is_module_community(
            #[trigger] final(communities)@[old(communities)@.len() + k],
            module_nodes(final(nodes)@)[k],
            k,
        ),
{
    let n = nodes.len();
    let ghost start = nodes@;
    for i in 0..n
        invariant
            n == nodes@.len() == start.len(),
            forall|j: int| 0 <= j < i ==> is_enriched(#[trigger] nodes@[j], start[j]),
            forall|j: int| i <= j < n ==> #[trigger] nodes@[j] == start[j],
    {
        let wants_concerns;
        let mut found: Vec<String> = Vec::new();
        {
            let node = &nodes[i];
            wants_concerns = str_eq(node.node_type.as_str(), "FUNCTION");
            if wants_concerns {
                let lowered = to_lowercase(node.name.as_str());
                let signature = match &node.metadata.signature {
                    Some(sig) => sig.clone(),
                    None => String::new(),
                };
                let text = concat_strs(concat_strs(lowered.as_str(), " ").as_str(), signature.as_str());
                found = concerns_of(text.as_str());
            }
        }
        let node = &mut nodes[i];
        node.metadata.hub_score = Some(0);
        if wants_concerns && found.len() > 0 {
            node.metadata.concerns = Some(found);
        }
    }
    let ghost before = communities@;
    let mut idx: usize = 0;
    for i in 0..n
        invariant
            n == nodes@.len(),
            idx == module_nodes(nodes@.take(i as int)).len(),
            idx <= i,
            communities@.len() == before.len() + idx,
            communities@.take(before.len() as int) == before,
            forall|k: int| 0 <= k < idx ==> is_module_community(
                #[trigger] communities@[before.len() + k],
                module_nodes(nodes@.take(i as int))[k],
                k,
            ),
    {
        let node = &nodes[i];
        proof {
            assert(nodes@.take(i as int + 1) == nodes@.take(i as int).push(*node));
            nodes@.take(i as int).lemma_filter_push(*node, module_filter());
        }
        if str_eq(node.node_type.as_str(), "MODULE") {
            let mut ids: Vec<String> = Vec::new();
            ids.push(node.id.clone());
            assert(views(ids@) =~= seq![node.id@]);
            let ghost prev = communities@;
            communities.push(Community {
                id: (idx + 1) as i64,
                label: node.name.clone(),
                node_ids: ids,
            });
            assert(communities@.take(before.len() as int) =~= prev.take(before.len() as int));
            idx = idx + 1;
        }
    }
    assert(nodes@.take(n as int) =~= nodes@);
}

/// Some node carries this id.
pub open spec fn has_node_with_id(nodes: Seq<GraphNode>, id: Seq<char>) -> bool {
    exists|i: int| 0 <= i < nodes.len() && (#[trigger] nodes[i]).id@ == id
}

/// Every edge of the graph built for a file runs between nodes of that graph:
/// the module contains the file, and the file defines each function and class.
pub proof fn law_file_graph_edges_join_its_nodes(g: Graph, item: FileManifest, outcome: TreeParse)
    requires
        is_graph_of_parse(g, item, outcome),
    ensures
        forall|k: int| 0 <= k < g.edges@.len() ==> {
            &&& has_node_with_id(g.nodes@, (#[trigger] g.edges@[k]).source_id@)
            &&& has_node_with_id(g.nodes@, g.edges@[k].target_id@)
        },
{
    if !(outcome is LanguageRejected) {
        let defs = match outcome {
            TreeParse::Parsed(root) => definitions(root),
            _ => Seq::empty(),
        };
        assert forall|k: int| 0 <= k < g.edges@.len() implies {
            &&& has_node_with_id(g.nodes@, (#[trigger] g.edges@[k]).source_id@)
            &&& has_node_with_id(g.nodes@, g.edges@[k].target_id@)
        } by {
            if k == 0 {
                assert(g.nodes@[1].id@ == g.edges@[0].source_id@);
                assert(g.nodes@[0].id@ == g.edges@[0].target_id@);
            } else {
                let q = k - 1;
                assert(is_defines_edge(g.edges@[1 + q], item, defs[q]));
                assert(is_definition_node(g.nodes@[2 + q], item, defs[q]));
                assert(g.nodes@[0].id@ == g.edges@[k].source_id@);
                assert(g.nodes@[2 + q].id@ == g.edges@[k].target_id@);
            }
        }
    }
}

/// Every node of the graph built for a file records that file's path and language.
pub proof fn law_file_graph_nodes_belong_to_the_file(g: Graph, item: FileManifest, outcome: TreeParse)
    requires
        is_graph_of_parse(g, item, outcome),
    ensures
        forall|i: int| 0 <= i < g.nodes@.len() ==> {
            &&& opt_view((#[trigger] g.nodes@[i]).file_path) == Some(item.file_path@)
            &&& opt_view(g.nodes@[i].language) == Some(item.language@)
        },
{
    if !(outcome is LanguageRejected) {
        let defs = match outcome {
            TreeParse::Parsed(root) => definitions(root),
            _ => Seq::empty(),
        };
        assert forall|i: int| 0 <= i < g.nodes@.len() implies {
            &&& opt_view((#[trigger] g.nodes@[i]).file_path) == Some(item.file_path@)
            &&& opt_view(g.nodes@[i].language) == Some(item.language@)
        } by {
            if i >= 2 {
                assert(is_definition_node(g.nodes@[2 + (i - 2)], item, defs[i - 2]));
            }
        }
    }
}

/// A function's complexity is at least 1.
pub proof fn law_complexity_is_positive(n: SyntaxNode)
    ensures
        spec_complexity(n) >= 1,
{
}

/// Every language the scan recognizes by extension has a grammar, so every
/// file the scan keeps is parsed.
pub proof fn law_scanned_languages_have_grammars(ext: Seq<char>)
    ensures
        crate::config::spec_language_for_extension(ext) matches Some(lang) ==> spec_grammar_for(lang) is Some,
{
    reveal_strlit("javascript");
    reveal_strlit("typescript");
    reveal_strlit("python");
    reveal_strlit("bash");
    reveal_strlit("rust");
}


/// A top-level function declaration (including a generator function) or a
/// Python function definition becomes a FUNCTION node that is no method, and
/// its file has a DEFINES edge to it.
pub proof fn law_top_level_functions_become_function_nodes(g: Graph, item: FileManifest, root: SyntaxNode, i: int)
    requires
        is_graph_of_parse(g, item, TreeParse::Parsed(root)),
        0 <= i < root.children@.len(),
        root.children@[i].kind@ == "function_declaration"@
            || root.children@[i].kind@ == "generator_function_declaration"@
            || root.children@[i].kind@ == "function_definition"@,
    ensures
        exists|k: int| #![trigger g.nodes@[2 + k]] {
            &&& 0 <= k && 2 + k < g.nodes@.len() && 1 + k < g.edges@.len()
            &&& g.nodes@[2 + k].node_type@ == "FUNCTION"@
            &&& g.nodes@[2 + k].id@ == function_node_id(item.file_path@, root.children@[i])
            &&& g.nodes@[2 + k].name@ == function_name(root.children@[i])
            &&& g.nodes@[2 + k].start_line == Some((root.children@[i].start_row + 1) as i64)
            &&& g.nodes@[2 + k].end_line == Some((root.children@[i].end_row + 1) as i64)
            &&& g.nodes@[2 + k].metadata.method == Some(false)
            &&& g.edges@[1 + k].edge_type@ == "DEFINES"@
            &&& g.edges@[1 + k].source_id@ == "file:"@ + item.file_path@
            &&& g.edges@[1 + k].target_id@ == g.nodes@[2 + k].id@
        },
{
    reveal_strlit("function_declaration");
    reveal_strlit("generator_function_declaration");
    reveal_strlit("function_definition");
    reveal_strlit("method_definition");
    reveal_strlit("class_declaration");
    reveal_strlit("class_definition");
    let c = root.children@[i];
    assert(spec_definition_kind(c.kind@) is Function);
    root.children@.lemma_filter_contains(definition_filter(), i);
    let defs = definitions(root);
    assert(defs.contains(c));
    let k = choose|k: int| 0 <= k < defs.len() && defs[k] == c;
    assert(is_definition_node(g.nodes@[2 + k], item, defs[k]));
    assert(is_defines_edge(g.edges@[1 + k], item, defs[k]));
}

/// Each keyword of a text implies its concern, and each concern comes from its
/// keywords: "log" or "debug" gives "logging", "auth" or "token" gives "auth",
/// "error" or "exception" gives "error"; there is no other concern.
pub proof fn law_keywords_give_concerns(text: Seq<char>)
    ensures
        (seq_contains(text, "log"@) || seq_contains(text, "debug"@)) <==> spec_concerns(text).contains("logging"@),
        (seq_contains(text, "auth"@) || seq_contains(text, "token"@)) <==> spec_concerns(text).contains("auth"@),
        (seq_contains(text, "error"@) || seq_contains(text, "exception"@)) <==> spec_concerns(text).contains("error"@),
        forall|k: int| 0 <= k < spec_concerns(text).len() ==>
            #[trigger] spec_concerns(text)[k] == "logging"@ || spec_concerns(text)[k] == "auth"@
                || spec_concerns(text)[k] == "error"@,
{
    reveal_strlit("logging");
    reveal_strlit("auth");
    reveal_strlit("error");
    let a: Seq<Seq<char>> = if seq_contains(text, "log"@) || seq_contains(text, "debug"@) { seq!["logging"@] } else { seq![] };
    let b: Seq<Seq<char>> = if seq_contains(text, "auth"@) || seq_contains(text, "token"@) { seq!["auth"@] } else { seq![] };
    let c: Seq<Seq<char>> = if seq_contains(text, "error"@) || seq_contains(text, "exception"@) { seq!["error"@] } else { seq![] };
    let cs = spec_concerns(text);
    assert(cs == a + b + c);
    assert("logging"@ != "auth"@) by { assert("logging"@.len() != "auth"@.len()); }
    assert("logging"@ != "error"@) by { assert("logging"@.len() != "error"@.len()); }
    assert("auth"@ != "error"@) by { assert("auth"@.len() != "error"@.len()); }
    assert forall|k: int| 0 <= k < cs.len() implies
        #[trigger] cs[k] == "logging"@ || cs[k] == "auth"@ || cs[k] == "error"@ by {
        if k < a.len() {
            assert(cs[k] == a[k]);
        } else if k < a.len() + b.len() {
            assert(cs[k] == b[k - a.len()]);
        } else {
            assert(cs[k] == c[k - a.len() - b.len()]);
        }
    }
    if a.len() > 0 {
        assert(cs[0] == "logging"@);
    }
    if b.len() > 0 {
        assert(cs[a.len() as int] == "auth"@);
    }
    if c.len() > 0 {
        assert(cs[(a.len() + b.len()) as int] == "error"@);
    }
    if cs.contains("logging"@) {
        let k = choose|k: int| 0 <= k < cs.len() && cs[k] == "logging"@;
        if k >= a.len() {
            if k < a.len() + b.len() { assert(cs[k] == b[k - a.len()]); } else { assert(cs[k] == c[k - a.len() - b.len()]); }
        }
    }
    if cs.contains("auth"@) {
        let k = choose|k: int| 0 <= k < cs.len() && cs[k] == "auth"@;
        if k < a.len() { assert(cs[k] == a[k]); } else if k >= a.len() + b.len() { assert(cs[k] == c[k - a.len() - b.len()]); }
    }
    if cs.contains("error"@) {
        let k = choose|k: int| 0 <= k < cs.len() && cs[k] == "error"@;
        if k < a.len() { assert(cs[k] == a[k]); } else if k < a.len() + b.len() { assert(cs[k] == b[k - a.len()]); }
    }
}

/// `needle` in `s` is still in `s + t`.
proof fn lemma_contains_in_prefix(s: Seq<char>, t: Seq<char>, needle: Seq<char>)
    requires
        seq_contains(s, needle),
    ensures
        seq_contains(s + t, needle),
{
    let at = choose|at: int| occurs_at(s, needle, at);
    assert((s + t).subrange(at, at + needle.len()) =~= s.subrange(at, at + needle.len()));
    assert(occurs_at(s + t, needle, at));
}

/// After enrichment, a function whose lowercased name holds "auth" or "token"
/// carries the concern "auth"; one whose name holds "log" or "debug" carries
/// "logging"; one whose name holds "error" or "exception" carries "error".
pub proof fn law_enriched_function_names_give_concerns(after: GraphNode, before: GraphNode)
    requires
        is_enriched(after, before),
        before.node_type@ == "FUNCTION"@,
    ensures
        ({
            let name = unicode_lowercase(before.name@);
            &&& (seq_contains(name, "auth"@) || seq_contains(name, "token"@)) ==> {
                &&& after.metadata.concerns is Some
                &&& views(after.metadata.concerns.unwrap()@).contains("auth"@)
            }
            &&& (seq_contains(name, "log"@) || seq_contains(name, "debug"@)) ==> {
                &&& after.metadata.concerns is Some
                &&& views(after.metadata.concerns.unwrap()@).contains("logging"@)
            }
            &&& (seq_contains(name, "error"@) || seq_contains(name, "exception"@)) ==> {
                &&& after.metadata.concerns is Some
                &&& views(after.metadata.concerns.unwrap()@).contains("error"@)
            }
        }),
{
    let name = unicode_lowercase(before.name@);
    let rest = " "@ + match before.metadata.signature {
        Some(sig) => sig@,
        None => Seq::empty(),
    };
    let text = concern_text(before);
    assert(text =~= name + rest);
    law_keywords_give_concerns(text);
    if seq_contains(name, "auth"@) { lemma_contains_in_prefix(name, rest, "auth"@); }
    if seq_contains(name, "token"@) { lemma_contains_in_prefix(name, rest, "token"@); }
    if seq_contains(name, "log"@) { lemma_contains_in_prefix(name, rest, "log"@); }
    if seq_contains(name, "debug"@) { lemma_contains_in_prefix(name, rest, "debug"@); }
    if seq_contains(name, "error"@) { lemma_contains_in_prefix(name, rest, "error"@); }
    if seq_contains(name, "exception"@) { lemma_contains_in_prefix(name, rest, "exception"@); }
    if spec_concerns(text).len() > 0 {
        assert(gets_concerns(before));
    }
}

/// A top-level method definition becomes a FUNCTION node that is a method, and
/// a top-level class declaration or Python class definition becomes a CLASS
/// node; the file has a DEFINES edge to each.
pub proof fn law_top_level_methods_and_classes_become_nodes(g: Graph, item: FileManifest, root: SyntaxNode, i: int)
    requires
        is_graph_of_parse(g, item, TreeParse::Parsed(root)),
        0 <= i < root.children@.len(),
    ensures
        root.children@[i].kind@ == "method_definition"@ ==> exists|k: int| #![trigger g.nodes@[2 + k]] {
            &&& 0 <= k && 2 + k < g.nodes@.len() && 1 + k < g.edges@.len()
            &&& g.nodes@[2 + k].node_type@ == "FUNCTION"@
            &&& g.nodes@[2 + k].id@ == function_node_id(item.file_path@, root.children@[i])
            &&& g.nodes@[2 + k].metadata.method == Some(true)
            &&& g.edges@[1 + k].edge_type@ == "DEFINES"@
            &&& g.edges@[1 + k].source_id@ == "file:"@ + item.file_path@
            &&& g.edges@[1 + k].target_id@ == g.nodes@[2 + k].id@
        },
        (root.children@[i].kind@ == "class_declaration"@ || root.children@[i].kind@ == "class_definition"@)
            ==> exists|k: int| #![trigger g.nodes@[2 + k]] {
            &&& 0 <= k && 2 + k < g.nodes@.len() && 1 + k < g.edges@.len()
            &&& g.nodes@[2 + k].node_type@ == "CLASS"@
            &&& g.nodes@[2 + k].id@ == class_node_id(item.file_path@, root.children@[i])
            &&& g.edges@[1 + k].edge_type@ == "DEFINES"@
            &&& g.edges@[1 + k].source_id@ == "file:"@ + item.file_path@
            &&& g.edges@[1 + k].target_id@ == g.nodes@[2 + k].id@
        },
{
    reveal_strlit("function_declaration");
    reveal_strlit("generator_function_declaration");
    reveal_strlit("function_definition");
    reveal_strlit("method_definition");
    reveal_strlit("class_declaration");
    reveal_strlit("class_definition");
    let c = root.children@[i];
    let defs = definitions(root);
    assert("method_definition"@ != "function_declaration"@) by { assert("method_definition"@.len() != "function_declaration"@.len()); }
    assert("method_definition"@ != "generator_function_declaration"@) by { assert("method_definition"@.len() != "generator_function_declaration"@.len()); }
    assert("method_definition"@ != "function_definition"@) by { assert("method_definition"@.len() != "function_definition"@.len()); }
    assert("class_declaration"@ != "function_declaration"@) by { assert("class_declaration"@.len() != "function_declaration"@.len()); }
    assert("class_declaration"@ != "generator_function_declaration"@) by { assert("class_declaration"@.len() != "generator_function_declaration"@.len()); }
    assert("class_declaration"@ != "function_definition"@) by { assert("class_declaration"@.len() != "function_definition"@.len()); }
    assert("class_declaration"@ != "method_definition"@) by { assert("class_declaration"@[0] != "method_definition"@[0]); }
    assert("class_definition"@ != "function_declaration"@) by { assert("class_definition"@.len() != "function_declaration"@.len()); }
    assert("class_definition"@ != "generator_function_declaration"@) by { assert("class_definition"@.len() != "generator_function_declaration"@.len()); }
    assert("class_definition"@ != "function_definition"@) by { assert("class_definition"@.len() != "function_definition"@.len()); }
    assert("class_definition"@ != "method_definition"@) by { assert("class_definition"@.len() != "method_definition"@.len()); }
    if c.kind@ == "method_definition"@ || c.kind@ == "class_declaration"@ || c.kind@ == "class_definition"@ {
        assert(!(spec_definition_kind(c.kind@) is Other));
        root.children@.lemma_filter_contains(definition_filter(), i);
        assert(defs.contains(c));
        let k = choose|k: int| 0 <= k < defs.len() && defs[k] == c;
        assert(is_definition_node(g.nodes@[2 + k], item, defs[k]));
        assert(is_defines_edge(g.edges@[1 + k], item, defs[k]));
    }
}

/// Only functions, generator functions, methods and classes at the top level
/// of the tree give nodes beyond the file and its module: every such node comes
/// from a top-level syntax node of one of those kinds.
pub proof fn law_only_definitions_give_nodes(g: Graph, item: FileManifest, root: SyntaxNode, k: int)
    requires
        is_graph_of_parse(g, item, TreeParse::Parsed(root)),
        2 <= k < g.nodes@.len(),
    ensures
        exists|i: int| #![trigger root.children@[i]] {
            &&& 0 <= i < root.children@.len()
            &&& {
                let kind = root.children@[i].kind@;
                ||| kind == "function_declaration"@
                ||| kind == "generator_function_declaration"@
                ||| kind == "function_definition"@
                ||| kind == "method_definition"@
                ||| kind == "class_declaration"@
                ||| kind == "class_definition"@
            }
            &&& g.nodes@[k].start_line == Some((root.children@[i].start_row + 1) as i64)
            &&& g.nodes@[k].end_line == Some((root.children@[i].end_row + 1) as i64)
        },
{
    let defs = definitions(root);
    let d = defs[k - 2];
    assert(is_definition_node(g.nodes@[2 + (k - 2)], item, defs[k - 2]));
    root.children@.lemma_filter_pred(definition_filter(), k - 2);
    assert(defs.contains(d));
    root.children@.lemma_filter_contains_rev(definition_filter(), d);
    let i = choose|i: int| 0 <= i < root.children@.len() && root.children@[i] == d;
    assert(root.children@[i] == d);
}

/// A syntax node with no children counts 2 towards complexity when it is an if,
/// for, while, switch, case, try, catch or conditional, and 1 otherwise.
pub proof fn law_branch_kinds_add_one(n: SyntaxNode)
    requires
        n.children@.len() == 0,
    ensures
        spec_complexity(n) == if n.kind@ == "if_statement"@ || n.kind@ == "for_statement"@
            || n.kind@ == "while_statement"@ || n.kind@ == "switch_statement"@
            || n.kind@ == "case_statement"@ || n.kind@ == "try_statement"@
            || n.kind@ == "catch_clause"@ || n.kind@ == "conditional_expression"@ { 2i64 } else { 1i64 },
{
    assert(branch_count_all(n.children@) == 0);
}

/// The grammar of each language the scan recognizes.
pub proof fn law_grammars_of_languages()
    ensures
        spec_grammar_for("javascript"@) == Some(Grammar::JavaScript),
        spec_grammar_for("typescript"@) == Some(Grammar::TypeScript),
        spec_grammar_for("python"@) == Some(Grammar::Python),
        spec_grammar_for("bash"@) == Some(Grammar::Bash),
        spec_grammar_for("rust"@) == Some(Grammar::Rust),
{
    reveal_strlit("javascript");
    reveal_strlit("typescript");
    reveal_strlit("python");
    reveal_strlit("bash");
    reveal_strlit("rust");
    assert("typescript"@ != "javascript"@) by { assert("typescript"@[0] != "javascript"@[0]); }
    assert("python"@ != "javascript"@) by { assert("python"@.len() != "javascript"@.len()); }
    assert("python"@ != "typescript"@) by { assert("python"@.len() != "typescript"@.len()); }
    assert("bash"@ != "javascript"@) by { assert("bash"@.len() != "javascript"@.len()); }
    assert("bash"@ != "typescript"@) by { assert("bash"@.len() != "typescript"@.len()); }
    assert("bash"@ != "python"@) by { assert("bash"@.len() != "python"@.len()); }
    assert("rust"@ != "javascript"@) by { assert("rust"@.len() != "javascript"@.len()); }
    assert("rust"@ != "typescript"@) by { assert("rust"@.len() != "typescript"@.len()); }
    assert("rust"@ != "python"@) by { assert("rust"@.len() != "python"@.len()); }
    assert("rust"@ != "bash"@) by { assert("rust"@[0] != "bash"@[0]); }
}

} // verus!
