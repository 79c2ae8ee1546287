//! The query server's decisions: which input lines are requests, what each
//! request asks for, and the answer to give once the database has been read.
//! Reading lines, querying the database and writing answers is left to the caller.

use vstd::prelude::*;
use vstd::string::*;
use crate::config::views;
use crate::serialization::{row_views, spec_toon, str_views, to_toon};
use crate::text::{
    concat_strs, i64_to_decimal, opt_view, seq_contains, seq_starts_with, signed_decimal, starts_with,
    str_eq, to_lowercase, unicode_lowercase, contains,
};

verus! {

broadcast use vstd::string::group_string_axioms;

/// Whether an input line is a request: it is not empty and does not start with '#'.
pub fn is_request_line(line: &str) -> (r: bool)
    ensures
        r == (line@.len() > 0 && !seq_starts_with(line@, "#"@)),
{
    if line.is_empty() {
        return false;
    }
    !starts_with(line, "#")
}

/// The fields of a request the server reads.
pub struct RequestFields {
    /// "method", when it is a string.
    pub method: Option<String>,
    /// "params"."file_path", when it is a string.
    pub file_path: Option<String>,
    /// "params"."query", when it is a string.
    pub query: Option<String>,
    /// "params"."node_id", when it is a string.
    pub node_id: Option<String>,
    /// "params"."limit", when it is an integer that fits in an `i64`.
    pub limit: Option<i64>,
}

/// The fields of a request, as text.
pub struct RequestView {
    pub method: Option<Seq<char>>,
    pub file_path: Option<Seq<char>>,
    pub query: Option<Seq<char>>,
    pub node_id: Option<Seq<char>>,
    pub limit: Option<i64>,
}

impl View for RequestFields {
    type V = RequestView;

    open spec fn view(&self) -> RequestView {
        RequestView {
            method: opt_view(self.method),
            file_path: opt_view(self.file_path),
            query: opt_view(self.query),
            node_id: opt_view(self.node_id),
            limit: self.limit,
        }
    }
}

/// What `serde_json::from_str` makes of a request line: its fields, or the
/// text of the error.
pub uninterp spec fn json_request(line: Seq<char>) -> Result<RequestView, Seq<char>>;

/// Reads a request line as JSON: calls `serde_json::from_str` into a
/// `serde_json::Value` (an error becomes its `Display` text), then picks the
/// fields with `Value::get`, `Value::as_str` and `Value::as_i64`. The result is
/// taken to depend on the line alone.
#[verifier::external_body]
pub(crate) fn read_request(line: &str) -> (r: Result<RequestFields, String>)
    ensures
        match (r, json_request(line@)) {
            (Ok(f), Ok(v)) => f@ == v,
            (Err(e), Err(t)) => e@ == t,
            _ => false,
        },
{
    let request: serde_json::Value = match serde_json::from_str(line) {
        Ok(v) => v,
        Err(e) => return Err(e.to_string()),
    };
    let params = request.get("params");
    let text = |key: &str| params.and_then(|p| p.get(key)).and_then(|v| v.as_str()).map(|s| s.to_string());
    Ok(RequestFields {
        method: request.get("method").and_then(|v| v.as_str()).map(|s| s.to_string()),
        file_path: text("file_path"),
        query: text("query"),
        node_id: text("node_id"),
        limit: params.and_then(|p| p.get("limit")).and_then(|v| v.as_i64()),
    })
}

/// A database read the server needs to answer a request.
pub enum Query {
    /// Counts of files, modules, functions and classes.
    Overview,
    /// Every module, by name.
    ModuleMap,
    /// The nodes of one file, by start line and name.
    FileStructure { file_path: String },
    /// Nodes by hub score, at most `limit` of them.
    FindHubs { limit: i64 },
    /// Functions, classes and variables by name, at most `limit` rows read;
    /// `query` is the lowercased text the names must contain.
    SearchSymbols { query: String, limit: i64 },
    /// One node by id.
    NodeDetail { node_id: String },
}

/// Everything stored for one node.
pub struct NodeRecord {
    pub id: String,
    pub node_type: String,
    pub name: String,
    pub file_path: String,
    pub start_line: i64,
    pub end_line: i64,
    pub language: Option<String>,
    pub metadata: String,
}

/// An answer, before it is written as one JSON line.
pub enum Reply {
    /// {"content": ...}
    Content(String),
    /// {"error": ...}
    Error(String),
    /// {"@id", "@type", "name", "filePath", "startLine", "endLine", "language", "metadata"}
    Node(NodeRecord),
}

/// What to do about a request line.
pub enum Plan {
    /// Answer at once.
    Answer(Reply),
    /// Read the database, then answer.
    Ask(Query),
}

fn text_or_empty(o: &Option<String>) -> (s: String)
    ensures
        s@ == match *o { Some(t) => t@, None => Seq::empty() },
{
    match o {
        Some(t) => t.clone(),
        None => String::new(),
    }
}

/// The text of an optional field, empty when absent.
pub open spec fn or_empty(o: Option<Seq<char>>) -> Seq<char> {
    match o {
        Some(t) => t,
        None => Seq::empty(),
    }
}

/// The plan for a request with these fields.
pub open spec fn is_plan_for(p: Plan, v: RequestView) -> bool {
    let method = or_empty(v.method);
    if method == "get_overview"@ {
        p matches Plan::Ask(Query::Overview)
    } else if method == "get_module_map"@ {
        p matches Plan::Ask(Query::ModuleMap)
    } else if method == "get_file_structure"@ {
        p matches Plan::Ask(Query::FileStructure { file_path }) && file_path@ == or_empty(v.file_path)
    } else if method == "find_hubs"@ {
        p matches Plan::Ask(Query::FindHubs { limit }) && limit == match v.limit { Some(l) => l, None => 10i64 }
    } else if method == "search_symbols"@ {
        &&& p matches Plan::Ask(Query::SearchSymbols { query, limit })
        &&& query@ == unicode_lowercase(or_empty(v.query))
        &&& limit == match v.limit { Some(l) => l, None => 20i64 }
    } else if method == "get_node_detail"@ {
        p matches Plan::Ask(Query::NodeDetail { node_id }) && node_id@ == or_empty(v.node_id)
    } else {
        p matches Plan::Answer(Reply::Error(e)) && e@ == "Unknown method: "@ + method
    }
}

/// What to do about a request that was read: answer a parse error at once,
/// name the database read its method needs, or answer that the method is unknown.
pub fn plan_request(request: &Result<RequestFields, String>) -> (p: Plan)
    ensures
        match *request {
            Err(e) => p matches Plan::Answer(Reply::Error(m)) && m@ == "Parse error: "@ + e@,
            Ok(f) => is_plan_for(p, f@),
        },
{
    match request {
        Err(e) => Plan::Answer(Reply::Error(concat_strs("Parse error: ", e.as_str()))),
        Ok(f) => {
            let method = text_or_empty(&f.method);
            let m = method.as_str();
            if str_eq(m, "get_overview") {
                Plan::Ask(Query::Overview)
            } else if str_eq(m, "get_module_map") {
                Plan::Ask(Query::ModuleMap)
            } else if str_eq(m, "get_file_structure") {
                Plan::Ask(Query::FileStructure { file_path: text_or_empty(&f.file_path) })
            } else if str_eq(m, "find_hubs") {
                let limit = match f.limit { Some(l) => l, None => 10 };
                Plan::Ask(Query::FindHubs { limit })
            } else if str_eq(m, "search_symbols") {
                let q = text_or_empty(&f.query);
                let limit = match f.limit { Some(l) => l, None => 20 };
                Plan::Ask(Query::SearchSymbols { query: to_lowercase(q.as_str()), limit })
            } else if str_eq(m, "get_node_detail") {
                Plan::Ask(Query::NodeDetail { node_id: text_or_empty(&f.node_id) })
            } else {
                Plan::Answer(Reply::Error(concat_strs("Unknown method: ", m)))
            }
        },
    }
}

/// Each method is planned from its own parameters: get_node_detail looks up
/// params.node_id, get_file_structure reads params.file_path, find_hubs and
/// search_symbols take params.limit (10 and 20 when absent), search_symbols
/// searches for params.query lowercased; a missing text parameter is empty.
pub proof fn law_methods_read_their_own_parameters(p: Plan, v: RequestView)
    requires
        is_plan_for(p, v),
    ensures
        v.method == Some("get_node_detail"@) ==> {
            &&& p matches Plan::Ask(Query::NodeDetail { node_id })
            &&& node_id@ == match v.node_id { Some(t) => t, None => Seq::<char>::empty() }
        },
        v.method == Some("get_file_structure"@) ==> {
            &&& p matches Plan::Ask(Query::FileStructure { file_path })
            &&& file_path@ == match v.file_path { Some(t) => t, None => Seq::<char>::empty() }
        },
        v.method == Some("find_hubs"@) ==> {
            &&& p matches Plan::Ask(Query::FindHubs { limit })
            &&& limit == match v.limit { Some(l) => l, None => 10i64 }
        },
        v.method == Some("search_symbols"@) ==> {
            &&& p matches Plan::Ask(Query::SearchSymbols { query, limit })
            &&& query@ == unicode_lowercase(match v.query { Some(t) => t, None => Seq::<char>::empty() })
            &&& limit == match v.limit { Some(l) => l, None => 20i64 }
        },
        v.method == Some("get_overview"@) ==> p matches Plan::Ask(Query::Overview),
        v.method == Some("get_module_map"@) ==> p matches Plan::Ask(Query::ModuleMap),
{
    reveal_strlit("get_overview");
    reveal_strlit("get_module_map");
    reveal_strlit("get_file_structure");
    reveal_strlit("find_hubs");
    reveal_strlit("search_symbols");
    reveal_strlit("get_node_detail");
    assert("get_node_detail"@ != "get_overview"@) by { assert("get_node_detail"@.len() != "get_overview"@.len()); }
    assert("get_node_detail"@ != "get_module_map"@) by { assert("get_node_detail"@.len() != "get_module_map"@.len()); }
    assert("get_node_detail"@ != "get_file_structure"@) by { assert("get_node_detail"@.len() != "get_file_structure"@.len()); }
    assert("get_node_detail"@ != "find_hubs"@) by { assert("get_node_detail"@.len() != "find_hubs"@.len()); }
    assert("get_node_detail"@ != "search_symbols"@) by { assert("get_node_detail"@.len() != "search_symbols"@.len()); }
    assert("get_file_structure"@ != "get_overview"@) by { assert("get_file_structure"@.len() != "get_overview"@.len()); }
    assert("get_file_structure"@ != "get_module_map"@) by { assert("get_file_structure"@.len() != "get_module_map"@.len()); }
    assert("find_hubs"@ != "get_overview"@) by { assert("find_hubs"@.len() != "get_overview"@.len()); }
    assert("find_hubs"@ != "get_module_map"@) by { assert("find_hubs"@.len() != "get_module_map"@.len()); }
    assert("find_hubs"@ != "get_file_structure"@) by { assert("find_hubs"@.len() != "get_file_structure"@.len()); }
    assert("search_symbols"@ != "get_overview"@) by { assert("search_symbols"@.len() != "get_overview"@.len()); }
    assert("search_symbols"@ != "get_module_map"@) by { assert("search_symbols"@[0] != "get_module_map"@[0]); }
    assert("search_symbols"@ != "get_file_structure"@) by { assert("search_symbols"@.len() != "get_file_structure"@.len()); }
    assert("search_symbols"@ != "find_hubs"@) by { assert("search_symbols"@.len() != "find_hubs"@.len()); }
    assert("get_module_map"@ != "get_overview"@) by { assert("get_module_map"@.len() != "get_overview"@.len()); }
}

/// What to do about a request line: the plan for what JSON makes of it.
pub fn plan_line(line: &str) -> (p: Plan)
    ensures
        match json_request(line@) {
            Err(e) => p matches Plan::Answer(Reply::Error(m)) && m@ == "Parse error: "@ + e,
            Ok(v) => is_plan_for(p, v),
        },
{
    let request = read_request(line);
    plan_request(&request)
}

/// A reply holding a table: `{"content": ...}` with the table written as TOON.
pub fn format_toon(label: &str, headers: &[&str], rows: &[Vec<String>]) -> (r: Reply)
    ensures
        r matches Reply::Content(c) && c@ == spec_toon(label@, str_views(headers@), row_views(rows@)),
{
    Reply::Content(to_toon(label, headers, rows))
}

/// A row of cells from strings.
fn row2(a: String, b: String) -> (r: Vec<String>)
    ensures
        views(r@) == seq![a@, b@],
{
    let r = vec![a, b];
    assert(views(r@) =~= seq![a@, b@]);
    r
}

/// The overview table: one row per metric.
pub open spec fn overview_rows(files: i64, modules: i64, functions: i64, classes: i64) -> Seq<Seq<Seq<char>>> {
    seq![
        seq!["files"@, signed_decimal(files as int)],
        seq!["modules"@, signed_decimal(modules as int)],
        seq!["functions"@, signed_decimal(functions as int)],
        seq!["classes"@, signed_decimal(classes as int)],
    ]
}

/// The answer to get_overview, given the counts read (0 for a count that could
/// not be read).
pub fn overview_reply(files: i64, modules: i64, functions: i64, classes: i64) -> (r: Reply)
    ensures
        r matches Reply::Content(c) && c@ == spec_toon(
            "overview"@,
            seq!["metric"@, "value"@],
            overview_rows(files, modules, functions, classes),
        ),
{
    let rows = vec![
        row2(String::from_str("files"), i64_to_decimal(files)),
        row2(String::from_str("modules"), i64_to_decimal(modules)),
        row2(String::from_str("functions"), i64_to_decimal(functions)),
        row2(String::from_str("classes"), i64_to_decimal(classes)),
    ];
    let headers = ["metric", "value"];
    assert(str_views(headers@) =~= seq!["metric"@, "value"@]);
    assert(row_views(rows@) =~= overview_rows(files, modules, functions, classes));
    format_toon("overview", &headers, rows.as_slice())
}

/// The answer to get_module_map, given the (id, name) rows read.
pub fn module_map_reply(rows: &[Vec<String>]) -> (r: Reply)
    ensures
        r matches Reply::Content(c) && c@ == spec_toon("modules"@, seq!["id"@, "name"@], row_views(rows@)),
{
    let headers = ["id", "name"];
    assert(str_views(headers@) =~= seq!["id"@, "name"@]);
    format_toon("modules", &headers, rows)
}

/// The answer to get_file_structure, given the (type, name, start, end) rows read.
pub fn file_structure_reply(rows: &[Vec<String>]) -> (r: Reply)
    ensures
        r matches Reply::Content(c) && c@ == spec_toon(
            "file_structure"@,
            seq!["type"@, "name"@, "start_line"@, "end_line"@],
            row_views(rows@),
        ),
{
    let headers = ["type", "name", "start_line", "end_line"];
    assert(str_views(headers@) =~= seq!["type"@, "name"@, "start_line"@, "end_line"@]);
    format_toon("file_structure", &headers, rows)
}

/// The answer to find_hubs, given the (id, type, name, hub score) rows read.
pub fn hubs_reply(rows: &[Vec<String>]) -> (r: Reply)
    ensures
        r matches Reply::Content(c) && c@ == spec_toon(
            "hubs"@,
            seq!["id"@, "type"@, "name"@, "hub_score"@],
            row_views(rows@),
        ),
{
    let headers = ["id", "type", "name", "hub_score"];
    assert(str_views(headers@) =~= seq!["id"@, "type"@, "name"@, "hub_score"@]);
    format_toon("hubs", &headers, rows)
}

/// A row matches a search when its lowercased third cell (the name) holds the query.
pub open spec fn symbol_filter(query: Seq<char>) -> spec_fn(Seq<Seq<char>>) -> bool {
    |row: Seq<Seq<char>>| seq_contains(unicode_lowercase(row[2]), query)
}

/// The rows a search keeps: those that match, at most `limit` of them.
pub open spec fn search_rows(rows: Seq<Seq<Seq<char>>>, query: Seq<char>, limit: usize) -> Seq<Seq<Seq<char>>> {
    let matching = rows.filter(symbol_filter(query));
    matching.take(if limit < matching.len() { limit as int } else { matching.len() as int })
}

/// The rows whose name (third cell) holds the lowercased query, at most `limit`.
pub fn matching_symbols(rows: &[Vec<String>], query: &str, limit: usize) -> (kept: Vec<Vec<String>>)
    requires
        forall|i: int| 0 <= i < rows@.len() ==> (#[trigger] rows@[i])@.len() >= 3,
    ensures
        row_views(kept@) == search_rows(row_views(rows@), query@, limit),
{
    let ghost all = row_views(rows@);
    let mut kept: Vec<Vec<String>> = Vec::new();
    let n = rows.len();
    for i in 0..n
        invariant
            n == rows@.len(),
            all == row_views(rows@),
            forall|j: int| 0 <= j < rows@.len() ==> (#[trigger] rows@[j])@.len() >= 3,
            row_views(kept@) == search_rows(all.take(i as int), query@, limit),
    {
        let row = &rows[i];
        proof {
            assert(all.take(i as int + 1) == all.take(i as int).push(all[i as int]));
            all.take(i as int).lemma_filter_push(all[i as int], symbol_filter(query@));
            assert(all[i as int] == views(row@));
        }
        let lowered = to_lowercase(row[2].as_str());
        if contains(lowered.as_str(), query) && kept.len() < limit {
            let ghost prev = kept@;
            let copy = crate::parser::clone_strings(row);
            kept.push(copy);
            proof {
                let m = all.take(i as int).filter(symbol_filter(query@));
                assert(row_views(kept@) =~= row_views(prev).push(views(row@)));
                assert(m.push(all[i as int]).take(kept@.len() as int) =~= m.take(prev.len() as int).push(all[i as int]));
            }
        } else {
            proof {
                let m = all.take(i as int).filter(symbol_filter(query@));
                if seq_contains(lowered@, query@) {
                    assert(row_views(kept@).len() == kept@.len());
                    assert(kept@.len() == limit);
                    assert(limit <= m.len());
                    assert(m.push(all[i as int]).take(limit as int) =~= m.take(limit as int));
                }
            }
        }
    }
    assert(all.take(n as int) =~= all);
    kept
}

/// The answer to search_symbols, given the (id, type, name, file, line) rows
/// read: the rows whose name holds the lowercased query, at most `limit`.
pub fn search_reply(rows: &[Vec<String>], query: &str, limit: i64) -> (r: Reply)
    requires
        forall|i: int| 0 <= i < rows@.len() ==> (#[trigger] rows@[i])@.len() >= 3,
    ensures
        r matches Reply::Content(c) && c@ == spec_toon(
            "symbols"@,
            seq!["id"@, "type"@, "name"@, "file_path"@, "line"@],
            search_rows(row_views(rows@), query@, limit as usize),
        ),
{
    let kept = matching_symbols(rows, query, limit as usize);
    let headers = ["id", "type", "name", "file_path", "line"];
    assert(str_views(headers@) =~= seq!["id"@, "type"@, "name"@, "file_path"@, "line"@]);
    format_toon("symbols", &headers, kept.as_slice())
}

/// The answer to get_node_detail: the node with its type written "code:<type>",
/// or an error when no node could be read.
pub fn node_detail_reply(found: Option<NodeRecord>) -> (r: Reply)
    ensures
        match found {
            None => r matches Reply::Error(e) && e@ == "not found"@,
            Some(n) => r matches Reply::Node(m) && {
                &&& m.id == n.id
                &&& m.node_type@ == "code:"@ + n.node_type@
                &&& m.name == n.name
                &&& m.file_path == n.file_path
                &&& m.start_line == n.start_line
                &&& m.end_line == n.end_line
                &&& m.language == n.language
                &&& m.metadata == n.metadata
            },
        },
{
    match found {
        None => Reply::Error(String::from_str("not found")),
        Some(n) => {
            let t = concat_strs("code:", n.node_type.as_str());
            Reply::Node(NodeRecord {
                id: n.id,
                node_type: t,
                name: n.name,
                file_path: n.file_path,
                start_line: n.start_line,
                end_line: n.end_line,
                language: n.language,
                metadata: n.metadata,
            })
        },
    }
}

/// A search answers only rows whose lowercased name holds the query, in the
/// order they were read, and never more than the limit.
pub proof fn law_search_keeps_matching_rows_within_limit(rows: Seq<Seq<Seq<char>>>, query: Seq<char>, limit: usize)
    ensures
        search_rows(rows, query, limit).len() <= limit,
        forall|k: int| 0 <= k < search_rows(rows, query, limit).len() ==>
            seq_contains(unicode_lowercase((#[trigger] search_rows(rows, query, limit)[k])[2]), query),
        forall|k: int| 0 <= k < search_rows(rows, query, limit).len() ==>
            rows.contains(#[trigger] search_rows(rows, query, limit)[k]),
{
    let matching = rows.filter(symbol_filter(query));
    assert forall|k: int| 0 <= k < search_rows(rows, query, limit).len() implies {
        &&& seq_contains(unicode_lowercase((#[trigger] search_rows(rows, query, limit)[k])[2]), query)
        &&& rows.contains(search_rows(rows, query, limit)[k])
    } by {
        assert(search_rows(rows, query, limit)[k] == matching[k]);
        rows.lemma_filter_pred(symbol_filter(query), k);
        assert(matching.contains(matching[k]));
        rows.lemma_filter_contains_rev(symbol_filter(query), matching[k]);
        rows.lemma_filter_len(symbol_filter(query));
    }
}

} // verus!
