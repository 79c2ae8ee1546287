use codebase_context_graph::parser::concerns_of;
use codebase_context_graph::gui::{button_command, GuiApp};
use codebase_context_graph::server::{
    file_structure_reply, format_toon, hubs_reply, is_request_line, matching_symbols,
    module_map_reply,
    node_detail_reply, overview_reply, plan_line, search_reply, NodeRecord, Plan,
    Query, Reply,
};
use codebase_context_graph::tools::create_tool_handlers;
use std::path::PathBuf;

fn row(cells: &[&str]) -> Vec<String> {
    cells.iter().map(|s| s.to_string()).collect()
}

fn content(r: Reply) -> String {
    match r {
        Reply::Content(c) => c,
        _ => panic!("expected content"),
    }
}

fn error(r: Reply) -> String {
    match r {
        Reply::Error(e) => e,
        _ => panic!("expected an error"),
    }
}

#[test]
fn request_lines() {
    assert!(is_request_line("{\"method\": \"get_overview\"}"));
    assert!(!is_request_line(""));
    assert!(!is_request_line("# a comment"));
    assert!(is_request_line(" # not at the start"));
}

#[test]
fn planning_requests() {
    let p = plan_line(r#"{"method": "search_symbols", "params": {"query": "PaRse", "limit": 5}}"#);
    match p {
        Plan::Ask(Query::SearchSymbols { query, limit }) => {
            assert_eq!(query, "parse");
            assert_eq!(limit, 5);
        }
        _ => panic!("expected a search"),
    }
    match plan_line(r#"{"method": "search_symbols"}"#) {
        Plan::Ask(Query::SearchSymbols { query, limit }) => {
            assert_eq!(query, "");
            assert_eq!(limit, 20);
        }
        _ => panic!("expected a search"),
    }
    match plan_line(r#"{"method": "find_hubs", "params": {"limit": 2.5}}"#) {
        Plan::Ask(Query::FindHubs { limit }) => assert_eq!(limit, 10),
        _ => panic!("expected find_hubs"),
    }
    match plan_line(r#"{"method": "get_file_structure", "params": {"file_path": "src/a.js"}}"#) {
        Plan::Ask(Query::FileStructure { file_path }) => assert_eq!(file_path, "src/a.js"),
        _ => panic!("expected get_file_structure"),
    }
    match plan_line(r#"{"method": "get_node_detail", "params": {"node_id": 5}}"#) {
        Plan::Ask(Query::NodeDetail { node_id }) => assert_eq!(node_id, ""),
        _ => panic!("expected get_node_detail"),
    }
    assert!(matches!(plan_line(r#"{"method": "get_overview"}"#), Plan::Ask(Query::Overview)));
    assert!(matches!(plan_line(r#"{"method": "get_module_map"}"#), Plan::Ask(Query::ModuleMap)));
    match plan_line(r#"{"method": "explode"}"#) {
        Plan::Answer(r) => assert_eq!(error(r), "Unknown method: explode"),
        _ => panic!("expected an answer"),
    }
    match plan_line(r#"[1, 2]"#) {
        Plan::Answer(r) => assert_eq!(error(r), "Unknown method: "),
        _ => panic!("expected an answer"),
    }
    match plan_line("not json") {
        Plan::Answer(r) => {
            let e = error(r);
            let expected = serde_json::from_str::<serde_json::Value>("not json").unwrap_err().to_string();
            assert_eq!(e, format!("Parse error: {}", expected));
        }
        _ => panic!("expected an answer"),
    }
}

#[test]
fn concerns_from_text() {
    assert_eq!(concerns_of("debug_token_exception"), vec!["logging", "auth", "error"]);
    assert!(concerns_of("compute sum").is_empty());
    assert_eq!(concerns_of("catalog"), vec!["logging"]);
}

#[test]
fn table_replies() {
    assert_eq!(
        content(overview_reply(3, 2, 10, -1)),
        "overview [4]\n  metric value\n  files 3\n  modules 2\n  functions 10\n  classes -1"
    );
    assert_eq!(content(module_map_reply(&[row(&["module:src", "src"])])), "modules [1]\n  id name\n  module:src src");
    assert_eq!(
        content(file_structure_reply(&[])),
        "file_structure [0]\n  type name start_line end_line"
    );
    assert_eq!(content(hubs_reply(&[])), "hubs [0]\n  id type name hub_score");
}

#[test]
fn symbol_search_filters_then_limits() {
    let rows = vec![
        row(&["f1", "FUNCTION", "parseFile", "a.js", "1"]),
        row(&["f2", "FUNCTION", "render", "a.js", "9"]),
        row(&["c1", "CLASS", "Parser", "b.py", "3"]),
        row(&["f3", "FUNCTION", "reparse", "c.sh", "4"]),
    ];
    let kept = matching_symbols(&rows, "parse", 2);
    assert_eq!(kept, vec![rows[0].clone(), rows[2].clone()]);
    assert_eq!(matching_symbols(&rows, "parse", 10).len(), 3);
    assert_eq!(matching_symbols(&rows, "", 10).len(), 4);
    assert_eq!(
        content(search_reply(&rows, "render", 20)),
        "symbols [1]\n  id type name file_path line\n  f2 FUNCTION render a.js 9"
    );
    // A negative limit read from a request keeps every match.
    assert_eq!(matching_symbols(&rows, "parse", -1i64 as usize).len(), 3);
}

#[test]
fn node_details() {
    let found = NodeRecord {
        id: "function:a.js:f:1:1".to_string(),
        node_type: "FUNCTION".to_string(),
        name: "f".to_string(),
        file_path: "a.js".to_string(),
        start_line: 1,
        end_line: 3,
        language: Some("javascript".to_string()),
        metadata: "{}".to_string(),
    };
    match node_detail_reply(Some(found)) {
        Reply::Node(n) => {
            assert_eq!(n.node_type, "code:FUNCTION");
            assert_eq!(n.id, "function:a.js:f:1:1");
            assert_eq!(n.end_line, 3);
            assert_eq!(n.language, Some("javascript".to_string()));
            assert_eq!(n.metadata, "{}");
        }
        _ => panic!("expected a node"),
    }
    assert_eq!(error(node_detail_reply(None)), "not found");
}

#[test]
fn tool_overview() {
    let h = create_tool_handlers(PathBuf::from("/p"), PathBuf::from("/p/.codebase-context/graph.db"));
    assert_eq!(h.db_path(), &PathBuf::from("/p/.codebase-context/graph.db"));
    assert_eq!(h.project_root(), &PathBuf::from("/p"));
    assert_eq!(
        h.get_overview(4, 7, 1),
        "overview [3]\n  metric value\n  files 4\n  functions 7\n  classes 1"
    );
    h.close();
}

#[test]
fn desktop_app_states() {
    let mut s = GuiApp::new("/p".to_string());
    assert_eq!(s.status, "Idle");
    assert!(s.actions_enabled());
    assert!(!s.stop_enabled());
    let cmd = button_command("Index");
    assert_eq!(cmd, "index");
    s.start_command(&cmd);
    assert!(s.running);
    assert!(!s.actions_enabled());
    assert_eq!(s.status, "Running index…");
    assert_eq!(s.output, "$ codebase-context-graph index --project-root /p\n");
    s.receive_output("Parsing 3 files...\n");
    s.receive_exit(2);
    assert!(!s.running);
    assert_eq!(s.status, "Failed (exit 2)");
    s.start_command("smoke");
    s.receive_exit(0);
    assert_eq!(s.status, "Idle");
    s.start_command("serve");
    s.stop_command();
    assert!(!s.running);
    assert_eq!(s.status, "Stopped");
    assert!(s.output.ends_with("--project-root /p\n"));
    s.clear_output();
    assert_eq!(s.output, "");
    assert_eq!(s.context_file("graph.db"), "/p/.codebase-context/graph.db");
    assert_eq!(s.context_folder(), "/p/.codebase-context");
}

#[test]
fn toon_table_reply() {
    let rows = vec![row(&["a", "1"]), row(&["b", "2"])];
    assert_eq!(
        content(format_toon("things", &["name", "count"], &rows)),
        "things [2]\n  name count\n  a 1\n  b 2"
    );
    assert_eq!(content(format_toon("empty", &["x"], &[])), "empty [0]\n  x");
}
