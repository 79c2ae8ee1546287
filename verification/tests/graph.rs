use codebase_context_graph::indexer::{
    add_file_graph, analysis_mode_name, build_graph, finish_index, index_stats, new_index,
    progress_line, smoke_verdict,
};
use codebase_context_graph::parser::{
    count_complexity, enrich_graph, graph_from_parse, parse_file, Community, GraphNode, Metadata,
    ParseError, SyntaxNode, TreeParse,
};
use codebase_context_graph::db::{Community as StoredCommunity, Edge, Node};
use codebase_context_graph::scanner::FileManifest;
use std::path::PathBuf;

fn item(path: &str, language: &str, content: &str) -> FileManifest {
    FileManifest {
        file_path: path.to_string(),
        absolute_path: PathBuf::from(format!("/p/{}", path)),
        language: language.to_string(),
        size: content.len() as u64,
        content_hash: "h".to_string(),
        content: content.to_string(),
    }
}

fn leaf(kind: &str) -> SyntaxNode {
    SyntaxNode { kind: kind.to_string(), name: None, start_row: 0, start_column: 0, end_row: 0, children: vec![] }
}

#[test]
fn javascript_file_graph() {
    let src = "function foo(x) {\n  if (x) { return 1; }\n  return x ? 2 : 3;\n}\nclass Bar {\n  m() {}\n}\nconst y = 1;\n";
    let mut errors: Vec<ParseError> = Vec::new();
    let g = parse_file(&item("src/app.js", "javascript", src), &mut errors);
    assert!(errors.is_empty());
    let ids: Vec<&str> = g.nodes.iter().map(|n| n.id.as_str()).collect();
    assert_eq!(ids, vec!["file:src/app.js", "module:src", "function:src/app.js:foo:1:1", "class:src/app.js:Bar:5"]);
    let file = &g.nodes[0];
    assert_eq!(file.node_type, "FILE");
    assert_eq!(file.name, "app.js");
    assert_eq!(file.start_line, Some(1));
    assert_eq!(file.end_line, Some(8));
    assert_eq!(file.metadata.hash.as_deref(), Some("h"));
    assert_eq!(file.metadata.size, Some(src.len() as u64));
    let module = &g.nodes[1];
    assert_eq!(module.node_type, "MODULE");
    assert_eq!(module.name, "src");
    assert_eq!(module.metadata.path.as_deref(), Some("src"));
    let foo = &g.nodes[2];
    assert_eq!(foo.node_type, "FUNCTION");
    assert_eq!(foo.name, "foo");
    assert_eq!(foo.start_line, Some(1));
    assert_eq!(foo.end_line, Some(4));
    assert_eq!(foo.metadata.method, Some(false));
    // JavaScript's `?:` is a ternary_expression, which is not counted.
    assert_eq!(foo.metadata.complexity, Some(2));
    let bar = &g.nodes[3];
    assert_eq!(bar.node_type, "CLASS");
    assert_eq!(bar.end_line, Some(7));
    assert!(bar.metadata.complexity.is_none());
    let edges: Vec<(&str, &str, &str)> = g
        .edges
        .iter()
        .map(|e| (e.source_id.as_str(), e.target_id.as_str(), e.edge_type.as_str()))
        .collect();
    assert_eq!(
        edges,
        vec![
            ("module:src", "file:src/app.js", "CONTAINS"),
            ("file:src/app.js", "function:src/app.js:foo:1:1", "DEFINES"),
            ("file:src/app.js", "class:src/app.js:Bar:5", "DEFINES"),
        ]
    );
}

#[test]
fn python_and_bash_functions() {
    let mut errors = Vec::new();
    let g = parse_file(&item("tool.py", "python", "def run(a):\n    return a if a else 0\n\nclass K:\n    pass\n"), &mut errors);
    let ids: Vec<&str> = g.nodes.iter().map(|n| n.id.as_str()).collect();
    // A top-level file lies in the module with an empty path.
    assert_eq!(ids, vec!["file:tool.py", "module:", "function:tool.py:run:1:1", "class:tool.py:K:4"]);
    assert_eq!(g.nodes[2].metadata.complexity, Some(2));
    let g = parse_file(&item("bin/go.sh", "bash", "greet() {\n  echo hi\n}\n"), &mut errors);
    assert_eq!(g.nodes.len(), 3);
    assert_eq!(g.nodes[2].name, "greet");
    assert!(errors.is_empty());
}

#[test]
fn rust_files_are_stored_as_files_only() {
    let mut errors = Vec::new();
    let g = parse_file(&item("src/lib.rs", "rust", "pub fn f() {}\nstruct S;\n"), &mut errors);
    assert_eq!(g.nodes.len(), 2);
    assert_eq!(g.edges.len(), 1);
    assert_eq!(g.nodes[0].end_line, Some(2));
}

#[test]
fn unknown_language_gives_nothing() {
    let mut errors = Vec::new();
    let g = parse_file(&item("a.txt", "text", "hello"), &mut errors);
    assert!(g.nodes.is_empty());
    assert!(g.edges.is_empty());
    assert!(errors.is_empty());
}

#[test]
fn graphs_from_given_trees() {
    let it = item("m.js", "javascript", "");
    let mut errors = Vec::new();
    let g = graph_from_parse(&it, &TreeParse::Failed, &mut errors);
    assert_eq!(g.nodes.len(), 2);
    assert_eq!(g.nodes[0].end_line, Some(0));
    assert_eq!(errors.len(), 1);
    assert_eq!(errors[0].file_path, "m.js");
    assert_eq!(errors[0].language, "javascript");
    assert_eq!(errors[0].error, "Parse failed");
    let g = graph_from_parse(&it, &TreeParse::LanguageRejected, &mut errors);
    assert!(g.nodes.is_empty());
    assert_eq!(errors.len(), 1);

    let mut anon = leaf("function_declaration");
    anon.start_row = 4;
    anon.start_column = 2;
    anon.end_row = 9;
    anon.children = vec![leaf("if_statement"), leaf("while_statement")];
    let mut method = leaf("method_definition");
    method.name = Some("go".to_string());
    let mut cls = leaf("class_definition");
    cls.start_row = 11;
    let mut root = leaf("program");
    root.children = vec![anon, leaf("comment"), method, cls];
    let g = graph_from_parse(&it, &TreeParse::Parsed(root), &mut errors);
    let ids: Vec<&str> = g.nodes.iter().map(|n| n.id.as_str()).collect();
    assert_eq!(
        ids,
        vec!["file:m.js", "module:", "function:m.js:anonymous_5:5:3", "function:m.js:go:1:1", "class:m.js:class_12:12"]
    );
    assert_eq!(g.nodes[2].metadata.complexity, Some(3));
    assert_eq!(g.nodes[2].end_line, Some(10));
    assert_eq!(g.nodes[3].metadata.method, Some(true));
    assert_eq!(g.edges.len(), 4);
}

#[test]
fn complexity_counts_branches_at_every_depth() {
    let mut inner = leaf("if_statement");
    inner.children = vec![leaf("catch_clause"), leaf("identifier")];
    let mut f = leaf("function_declaration");
    f.children = vec![inner, leaf("for_statement"), leaf("switch_statement"), leaf("case_statement"), leaf("try_statement"), leaf("conditional_expression")];
    assert_eq!(count_complexity(&f), 8);
    assert_eq!(count_complexity(&leaf("identifier")), 1);
    assert_eq!(count_complexity(&leaf("if_statement")), 2);
}

fn node(id: &str, node_type: &str, name: &str) -> GraphNode {
    GraphNode {
        id: id.to_string(),
        node_type: node_type.to_string(),
        name: name.to_string(),
        file_path: None,
        start_line: None,
        end_line: None,
        language: None,
        metadata: Metadata::empty(),
    }
}

#[test]
fn enrichment_scores_concerns_and_communities() {
    let mut signed = node("f3", "FUNCTION", "run");
    signed.metadata.signature = Some("run(token)".to_string());
    let mut nodes = vec![
        node("m1", "MODULE", "src"),
        node("f1", "FUNCTION", "getAuthToken"),
        node("f2", "FUNCTION", "logError"),
        signed,
        node("c1", "CLASS", "Logger"),
        node("f4", "FUNCTION", "compute"),
        node("m2", "MODULE", "lib"),
    ];
    let mut communities = vec![Community { id: 99, label: "kept".to_string(), node_ids: vec![] }];
    enrich_graph(&mut nodes, &[], &mut communities);
    assert!(nodes.iter().all(|n| n.metadata.hub_score == Some(0)));
    assert_eq!(nodes[1].metadata.concerns, Some(vec!["auth".to_string()]));
    assert_eq!(nodes[2].metadata.concerns, Some(vec!["logging".to_string(), "error".to_string()]));
    assert_eq!(nodes[3].metadata.concerns, Some(vec!["auth".to_string()]));
    assert_eq!(nodes[4].metadata.concerns, None);
    assert_eq!(nodes[5].metadata.concerns, None);
    assert_eq!(communities.len(), 3);
    assert_eq!(communities[0].id, 99);
    assert_eq!(communities[1].id, 1);
    assert_eq!(communities[1].label, "src");
    assert_eq!(communities[1].node_ids, vec!["m1".to_string()]);
    assert_eq!(communities[2].id, 2);
    assert_eq!(communities[2].label, "lib");
}

#[test]
fn whole_project_index() {
    let manifest = vec![
        item("src/a.js", "javascript", "function a() {}\nfunction b() {}\n"),
        item("src/b.py", "python", "class C:\n    pass\n"),
        item("README.rs", "rust", "fn main() {}\n"),
    ];
    let idx = build_graph(&manifest);
    assert_eq!(idx.nodes.len(), 4 + 3 + 2);
    assert_eq!(idx.edges.len(), 3 + 2 + 1);
    assert_eq!(idx.communities.len(), 3);
    assert_eq!(idx.communities[2].label, "");
    assert!(idx.parse_errors.is_empty());
    let stats = index_stats(manifest.len(), &idx.nodes, &idx.edges, &idx.communities);
    assert_eq!(stats.files, 3);
    assert_eq!(stats.functions, 2);
    assert_eq!(stats.classes, 1);
    assert_eq!(stats.variables, 0);
    assert_eq!(stats.edges, 6);
    assert_eq!(stats.communities, 3);

    let mut acc = new_index();
    for it in &manifest {
        add_file_graph(&mut acc, it);
    }
    assert!(acc.communities.is_empty());
    finish_index(&mut acc);
    let a: Vec<&str> = acc.nodes.iter().map(|n| n.id.as_str()).collect();
    let b: Vec<&str> = idx.nodes.iter().map(|n| n.id.as_str()).collect();
    assert_eq!(a, b);
}

#[test]
fn progress_and_verdicts() {
    assert_eq!(progress_line(0, 250).as_deref(), Some("  0/250 files"));
    assert_eq!(progress_line(200, 250).as_deref(), Some("  200/250 files"));
    assert_eq!(progress_line(7, 250), None);
    assert_eq!(analysis_mode_name(true), "advanced");
    assert_eq!(analysis_mode_name(false), "standard");
    assert_eq!(smoke_verdict(0), Err("Database is empty. Run 'index' first.".to_string()));
    assert_eq!(smoke_verdict(12), Ok("Database OK: 12 nodes".to_string()));
}

#[test]
fn stored_forms_copy_every_field() {
    let mut n = node("f", "FUNCTION", "go");
    n.file_path = Some("a.js".to_string());
    n.start_line = Some(3);
    n.metadata.concerns = Some(vec!["auth".to_string()]);
    let stored = Node::from_graph_node(&n);
    assert_eq!(stored.id, "f");
    assert_eq!(stored.file_path.as_deref(), Some("a.js"));
    assert_eq!(stored.start_line, Some(3));
    assert_eq!(stored.metadata.concerns, Some(vec!["auth".to_string()]));
    let e = codebase_context_graph::parser::GraphEdge {
        source_id: "a".to_string(),
        target_id: "b".to_string(),
        edge_type: "DEFINES".to_string(),
        metadata: Metadata::empty(),
    };
    let stored = Edge::from_graph_edge(&e);
    assert_eq!(stored.id, None);
    assert_eq!(stored.target_id, "b");
    let c = Community { id: 4, label: "l".to_string(), node_ids: vec!["x".to_string()] };
    let stored = StoredCommunity::from_graph_community(&c);
    assert_eq!(stored.id, 4);
    assert_eq!(stored.node_ids, vec!["x".to_string()]);
}

#[test]
fn every_scanned_language_is_parsed() {
    let sources = [
        ("a.js", "function f() {}\n"),
        ("a.ts", "function f(): void {}\n"),
        ("a.py", "def f():\n    pass\n"),
        ("a.sh", "f() { :; }\n"),
        ("a.rs", "fn f() {}\n"),
    ];
    for (path, src) in sources {
        let language = codebase_context_graph::config::detect_language(path).unwrap();
        let mut errors = Vec::new();
        let g = parse_file(&item(path, &language, src), &mut errors);
        assert!(g.nodes.len() >= 2, "{} gave no graph", path);
        // Every node records the file it came from, and every edge joins two of them.
        for n in &g.nodes {
            assert_eq!(n.file_path.as_deref(), Some(path));
            assert_eq!(n.language.as_deref(), Some(language.as_str()));
        }
        for e in &g.edges {
            assert!(g.nodes.iter().any(|n| n.id == e.source_id));
            assert!(g.nodes.iter().any(|n| n.id == e.target_id));
        }
    }
}
