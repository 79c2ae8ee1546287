use codebase_context_graph::cli::{parse_command, project_root_arg, usage_lines, CliCommand};
use codebase_context_graph::config::{
    config_path, context_dir, database_path, default_ignore_patterns, default_project_config,
    detect_language, graph_json_path, join_path, language_for_extension,
};
use codebase_context_graph::serialization::{join_strings, to_toon};
use codebase_context_graph::text::{
    concat_strs, contains, ends_with, i64_to_decimal, starts_with, str_eq, u64_to_decimal,
};

fn strings(v: &[&str]) -> Vec<String> {
    v.iter().map(|s| s.to_string()).collect()
}

#[test]
fn default_patterns_are_the_documented_list() {
    let p = default_ignore_patterns();
    assert_eq!(p.len(), 24);
    assert_eq!(p[0], "node_modules/**");
    assert_eq!(p[11], ".codebase-context/**");
    assert_eq!(p[20], "*.min.js");
    assert_eq!(p[23], "*.log");
}

#[test]
fn languages_by_extension() {
    assert_eq!(detect_language("src/a.js").as_deref(), Some("javascript"));
    assert_eq!(detect_language("a.cjs").as_deref(), Some("javascript"));
    assert_eq!(detect_language("a.mjs").as_deref(), Some("javascript"));
    assert_eq!(detect_language("ui/App.jsx").as_deref(), Some("javascript"));
    assert_eq!(detect_language("a.ts").as_deref(), Some("typescript"));
    assert_eq!(detect_language("a.tsx").as_deref(), Some("typescript"));
    assert_eq!(detect_language("tool.py").as_deref(), Some("python"));
    assert_eq!(detect_language("src/main.rs").as_deref(), Some("rust"));
    assert_eq!(detect_language("run.sh").as_deref(), Some("bash"));
    assert_eq!(detect_language("run.bash").as_deref(), Some("bash"));
    assert_eq!(detect_language("README.md"), None);
    assert_eq!(detect_language("Makefile"), None);
    assert_eq!(detect_language(".bashrc"), None);
    assert_eq!(detect_language("archive.tar.gz"), None);
    assert_eq!(language_for_extension("py").as_deref(), Some("python"));
    assert_eq!(language_for_extension("PY"), None);
    assert_eq!(language_for_extension(""), None);
}

#[test]
fn context_files_lie_in_the_context_folder() {
    assert_eq!(context_dir("/home/me/proj"), "/home/me/proj/.codebase-context");
    assert_eq!(context_dir("/home/me/proj/"), "/home/me/proj/.codebase-context");
    assert_eq!(context_dir(""), ".codebase-context");
    assert_eq!(config_path("/p"), "/p/.codebase-context/config.json");
    assert_eq!(database_path("/p"), "/p/.codebase-context/graph.db");
    assert_eq!(graph_json_path("/p"), "/p/.codebase-context/graph.json");
    assert_eq!(join_path("a", "b"), "a/b");
    assert_eq!(join_path("a/", "b"), "a/b");
    for (base, name) in [("a", "/b"), ("", "x"), ("a", ""), ("/", "y"), ("a//", "b/c")] {
        let expected = std::path::Path::new(base).join(name);
        assert_eq!(join_path(base, name), expected.to_string_lossy(), "{:?} {:?}", base, name);
    }
    // The same as Path::join for a relative component.
    let expected = std::path::Path::new("/x/y").join(".codebase-context").join("graph.db");
    assert_eq!(database_path("/x/y"), expected.to_string_lossy());
}

#[test]
fn new_project_settings() {
    let c = default_project_config("/home/me/my-project");
    assert_eq!(c.version, "1.0");
    assert_eq!(c.project_name, "my-project");
    assert!(c.languages.is_empty());
    assert_eq!(c.ignore_patterns, default_ignore_patterns());
    assert_eq!(c.analysis_mode.as_deref(), Some("standard"));
    assert_eq!(default_project_config("/").project_name, "");
}

#[test]
fn decimal_rendering() {
    assert_eq!(u64_to_decimal(0), "0");
    assert_eq!(u64_to_decimal(7), "7");
    assert_eq!(u64_to_decimal(10), "10");
    assert_eq!(u64_to_decimal(12345), "12345");
    assert_eq!(u64_to_decimal(u64::MAX), u64::MAX.to_string());
    assert_eq!(i64_to_decimal(-42), "-42");
    assert_eq!(i64_to_decimal(0), "0");
    assert_eq!(i64_to_decimal(i64::MIN), i64::MIN.to_string());
    assert_eq!(i64_to_decimal(i64::MAX), i64::MAX.to_string());
}

#[test]
fn text_searching() {
    assert!(contains("get auth token", "auth"));
    assert!(contains("abc", ""));
    assert!(!contains("ab", "abc"));
    assert!(!contains("logic", "loge"));
    assert!(starts_with("#comment", "#"));
    assert!(!starts_with("", "#"));
    assert!(ends_with("app.min.js", ".min.js"));
    assert!(str_eq("é", "é"));
    assert!(!str_eq("a", "b"));
    assert_eq!(concat_strs("ab", "cd"), "abcd");
}

#[test]
fn toon_table() {
    let rows = vec![strings(&["files", "3"]), strings(&["functions", "12"])];
    let text = to_toon("overview", &["metric", "value"], &rows);
    assert_eq!(text, "overview [2]\n  metric value\n  files 3\n  functions 12");
    let empty = to_toon("modules", &["id", "name"], &[]);
    assert_eq!(empty, "modules [0]\n  id name");
    assert_eq!(join_strings(&strings(&["a", "b", "c"]), ", "), "a, b, c");
    assert_eq!(join_strings(&[], ", "), "");
}

#[test]
fn command_line() {
    let args = strings(&["ccg", "index", "--project-root", "/p", "--analysis-mode", "advanced"]);
    assert_eq!(project_root_arg(&args).as_deref(), Some("/p"));
    assert!(matches!(parse_command(&args), CliCommand::Index { advanced: true }));
    let args = strings(&["ccg", "index"]);
    assert_eq!(project_root_arg(&args), None);
    assert!(matches!(parse_command(&args), CliCommand::Index { advanced: false }));
    let args = strings(&["ccg", "serve", "--project-root"]);
    assert_eq!(project_root_arg(&args), None);
    assert!(matches!(parse_command(&args), CliCommand::Serve));
    let args = strings(&["ccg", "smoke", "--project-root", "/a", "--project-root", "/b"]);
    assert_eq!(project_root_arg(&args).as_deref(), Some("/a"));
    assert!(matches!(parse_command(&strings(&["ccg"])), CliCommand::Usage));
    assert!(matches!(parse_command(&strings(&["ccg", "init"])), CliCommand::Init));
    assert!(matches!(parse_command(&strings(&["ccg", "watch"])), CliCommand::Watch));
    match parse_command(&strings(&["ccg", "frobnicate"])) {
        CliCommand::Unknown(c) => assert_eq!(c, "frobnicate"),
        _ => panic!("expected an unknown command"),
    }
    let usage = usage_lines();
    assert_eq!(usage.len(), 7);
    assert_eq!(usage[0], "codebase-context-graph");
    assert_eq!(usage[6], "No Node.js required.");
}
