//! Project configuration: the default ignore patterns, language detection, the
//! locations of the files kept in a project's context folder, and the settings
//! a new project starts with.

use vstd::prelude::*;
use vstd::string::*;
use crate::text::{chars_of, concat_strs, opt_view, push_char, seq_starts_with, str_eq};

verus! {

broadcast use vstd::string::group_string_axioms;

/// The ignore patterns a new project starts with.
pub open spec fn spec_default_ignore_patterns() -> Seq<Seq<char>> {
    seq![
        "node_modules/**"@, ".git/**"@, "dist/**"@, "build/**"@, "vendor/**"@, "venv/**"@,
        ".venv/**"@, "env/**"@, ".env/**"@, "site-packages/**"@, "__pycache__/**"@,
        ".codebase-context/**"@, ".pytest_cache/**"@, ".ruff_cache/**"@, "logs/**"@,
        "tmp/**"@, "archive/**"@, "checkpoints/**"@, "data/**"@, "db/**"@, "*.min.js"@,
        "*.map"@, "*.lock"@, "*.log"@,
    ]
}

/// The characters of each string of a sequence.
pub open spec fn views(v: Seq<String>) -> Seq<Seq<char>> {
    v.map_values(|s: String| s@)
}

pub proof fn lemma_views_push(v: Seq<String>, s: String)
    ensures
        views(v.push(s)) == views(v).push(s@),
{
    assert(views(v.push(s)) =~= views(v).push(s@));
}

pub fn default_ignore_patterns() -> (patterns: Vec<String>)
    ensures
        views(patterns@) == spec_default_ignore_patterns(),
{
    let v = vec![
        String::from_str("node_modules/**"),
        String::from_str(".git/**"),
        String::from_str("dist/**"),
        String::from_str("build/**"),
        String::from_str("vendor/**"),
        String::from_str("venv/**"),
        String::from_str(".venv/**"),
        String::from_str("env/**"),
        String::from_str(".env/**"),
        String::from_str("site-packages/**"),
        String::from_str("__pycache__/**"),
        String::from_str(".codebase-context/**"),
        String::from_str(".pytest_cache/**"),
        String::from_str(".ruff_cache/**"),
        String::from_str("logs/**"),
        String::from_str("tmp/**"),
        String::from_str("archive/**"),
        String::from_str("checkpoints/**"),
        String::from_str("data/**"),
        String::from_str("db/**"),
        String::from_str("*.min.js"),
        String::from_str("*.map"),
        String::from_str("*.lock"),
        String::from_str("*.log"),
    ];
    assert(views(v@) =~= spec_default_ignore_patterns());
    v
}

/// The language whose files carry the extension `ext`, if it is one this tool parses.
pub open spec fn spec_language_for_extension(ext: Seq<char>) -> Option<Seq<char>> {
    if ext == "js"@ || ext == "cjs"@ || ext == "mjs"@ || ext == "jsx"@ {
        Some("javascript"@)
    } else if ext == "ts"@ || ext == "tsx"@ {
        Some("typescript"@)
    } else if ext == "py"@ {
        Some("python"@)
    } else if ext == "rs"@ {
        Some("rust"@)
    } else if ext == "sh"@ || ext == "bash"@ {
        Some("bash"@)
    } else {
        None
    }
}

/// The language of the files with extension `ext`, `None` when no parser handles it.
pub fn language_for_extension(ext: &str) -> (lang: Option<String>)
    ensures
        opt_view(lang) == spec_language_for_extension(ext@),
{
    if str_eq(ext, "js") || str_eq(ext, "cjs") || str_eq(ext, "mjs") || str_eq(ext, "jsx") {
        Some(String::from_str("javascript"))
    } else if str_eq(ext, "ts") || str_eq(ext, "tsx") {
        Some(String::from_str("typescript"))
    } else if str_eq(ext, "py") {
        Some(String::from_str("python"))
    } else if str_eq(ext, "rs") {
        Some(String::from_str("rust"))
    } else if str_eq(ext, "sh") || str_eq(ext, "bash") {
        Some(String::from_str("bash"))
    } else {
        None
    }
}

/// What `std::path::Path::extension` gives for a path, as text.
pub uninterp spec fn path_extension_of(path: Seq<char>) -> Option<Seq<char>>;

/// What `std::path::Path::file_name` gives for a path, as text.
pub uninterp spec fn path_file_name_of(path: Seq<char>) -> Option<Seq<char>>;

/// What `std::path::Path::parent` gives for a path, as text.
pub uninterp spec fn path_parent_of(path: Seq<char>) -> Option<Seq<char>>;

/// The extension of `path`: calls `Path::extension` and converts the result
/// (always valid UTF-8, since the path is a `str`) to a `String`. The result is
/// taken to depend on the path alone.
#[verifier::external_body]
pub(crate) fn path_extension(path: &str) -> (ext: Option<String>)
    ensures
        opt_view(ext) == path_extension_of(path@),
{
    std::path::Path::new(path).extension().map(|e| e.to_string_lossy().to_string())
}

/// The final component of `path`: calls `Path::file_name` and converts the result
/// to a `String`. The result is taken to depend on the path alone.
#[verifier::external_body]
pub(crate) fn path_file_name(path: &str) -> (name: Option<String>)
    ensures
        opt_view(name) == path_file_name_of(path@),
{
    std::path::Path::new(path).file_name().map(|e| e.to_string_lossy().to_string())
}

/// The path without its final component: calls `Path::parent` and converts the
/// result to a `String`. The result is taken to depend on the path alone.
#[verifier::external_body]
pub(crate) fn path_parent(path: &str) -> (parent: Option<String>)
    ensures
        opt_view(parent) == path_parent_of(path@),
{
    std::path::Path::new(path).parent().map(|p| p.to_string_lossy().to_string())
}

/// The language of a file, judged by its extension.
pub fn detect_language(file_path: &str) -> (lang: Option<String>)
    ensures
        opt_view(lang) == match path_extension_of(file_path@) {
            Some(ext) => spec_language_for_extension(ext),
            None => None,
        },
{
    match path_extension(file_path) {
        Some(ext) => language_for_extension(ext.as_str()),
        None => None,
    }
}

/// `name` joined to `base` as `Path::join` does on Unix: an absolute `name`
/// replaces `base`; otherwise a '/' goes between them unless `base` is empty
/// or already ends with one.
pub open spec fn spec_join(base: Seq<char>, name: Seq<char>) -> Seq<char> {
    if name.len() > 0 && name[0] == '/' {
        name
    } else if base.len() == 0 || base.last() == '/' {
        base + name
    } else {
        base + seq!['/'] + name
    }
}

/// `name` joined to `base` as a path.
pub fn join_path(base: &str, name: &str) -> (joined: String)
    ensures
        joined@ == spec_join(base@, name@),
{
    let ns = chars_of(name);
    if ns.len() > 0 && ns[0] == '/' {
        return String::from_str(name);
    }
    let cs = chars_of(base);
    if cs.len() == 0 || cs[cs.len() - 1] == '/' {
        concat_strs(base, name)
    } else {
        let mut s = String::from_str(base);
        push_char(&mut s, '/');
        s.append(name);
        s
    }
}

pub open spec fn spec_context_dir(project_root: Seq<char>) -> Seq<char> {
    spec_join(project_root, ".codebase-context"@)
}

/// The folder inside a project where everything this tool writes is kept.
pub fn context_dir(project_root: &str) -> (dir: String)
    ensures
        dir@ == spec_context_dir(project_root@),
{
    join_path(project_root, ".codebase-context")
}

/// The project's settings file.
pub fn config_path(project_root: &str) -> (path: String)
    ensures
        path@ == spec_join(spec_context_dir(project_root@), "config.json"@),
{
    let dir = context_dir(project_root);
    join_path(dir.as_str(), "config.json")
}

/// The project's SQLite database.
pub fn database_path(project_root: &str) -> (path: String)
    ensures
        path@ == spec_join(spec_context_dir(project_root@), "graph.db"@),
{
    let dir = context_dir(project_root);
    join_path(dir.as_str(), "graph.db")
}

/// The project's graph, written as JSON.
pub fn graph_json_path(project_root: &str) -> (path: String)
    ensures
        path@ == spec_join(spec_context_dir(project_root@), "graph.json"@),
{
    let dir = context_dir(project_root);
    join_path(dir.as_str(), "graph.json")
}

/// A project's settings.
pub struct Config {
    pub version: String,
    pub project_name: String,
    pub languages: Vec<String>,
    pub ignore_patterns: Vec<String>,
    pub analysis_mode: Option<String>,
}

/// The settings a project starts with: version "1.0", named after the last
/// component of its root (empty when the root has none), no languages listed,
/// the default ignore patterns, and the "standard" analysis mode.
pub fn default_project_config(project_root: &str) -> (config: Config)
    ensures
        config.version@ == "1.0"@,
        config.project_name@ == match path_file_name_of(project_root@) {
            Some(name) => name,
            None => Seq::<char>::empty(),
        },
        config.languages@.len() == 0,
        views(config.ignore_patterns@) == spec_default_ignore_patterns(),
        opt_view(config.analysis_mode) == Some("standard"@),
{
    let project_name = match path_file_name(project_root) {
        Some(name) => name,
        None => String::new(),
    };
    Config {
        version: String::from_str("1.0"),
        project_name,
        languages: Vec::new(),
        ignore_patterns: default_ignore_patterns(),
        analysis_mode: Some(String::from_str("standard")),
    }
}

/// Everything the tool writes lies in the project's context folder, which lies
/// in the project root: the context folder is the root followed by
/// ".codebase-context", and each file in it is the folder, a '/', and its name.
pub proof fn law_written_files_lie_in_context_dir(project_root: Seq<char>, name: Seq<char>)
    requires
        name.len() > 0,
        name[0] != '/',
    ensures
        seq_starts_with(spec_context_dir(project_root), project_root),
        spec_join(spec_context_dir(project_root), name) == spec_context_dir(project_root) + seq!['/'] + name,
{
    reveal_strlit(".codebase-context");
    let dir = spec_context_dir(project_root);
    assert(dir.subrange(0, project_root.len() as int) =~= project_root);
    assert(dir.len() > 0);
    assert(dir.last() == 't');
}

/// Which extensions are read as which language: js, cjs, mjs and jsx as
/// JavaScript, ts and tsx as TypeScript, py as Python, rs as Rust, sh and bash
/// as Bash; no other extension is read.
pub proof fn law_extension_languages(ext: Seq<char>)
    ensures
        (ext == "js"@ || ext == "cjs"@ || ext == "mjs"@ || ext == "jsx"@)
            <==> spec_language_for_extension(ext) == Some("javascript"@),
        (ext == "ts"@ || ext == "tsx"@) <==> spec_language_for_extension(ext) == Some("typescript"@),
        ext == "py"@ <==> spec_language_for_extension(ext) == Some("python"@),
        ext == "rs"@ <==> spec_language_for_extension(ext) == Some("rust"@),
        (ext == "sh"@ || ext == "bash"@) <==> spec_language_for_extension(ext) == Some("bash"@),
        spec_language_for_extension(ext) is None <==> !(
            ext == "js"@ || ext == "cjs"@ || ext == "mjs"@ || ext == "jsx"@ || ext == "ts"@ || ext == "tsx"@
            || ext == "py"@ || ext == "rs"@ || ext == "sh"@ || ext == "bash"@),
{
    reveal_strlit("javascript");
    reveal_strlit("typescript");
    reveal_strlit("python");
    reveal_strlit("bash");
    reveal_strlit("rust");
    reveal_strlit("js");
    reveal_strlit("cjs");
    reveal_strlit("mjs");
    reveal_strlit("jsx");
    reveal_strlit("ts");
    reveal_strlit("tsx");
    reveal_strlit("py");
    reveal_strlit("rs");
    reveal_strlit("sh");
    assert("js"@ != "cjs"@) by { assert("js"@.len() != "cjs"@.len()); }
    assert("js"@ != "mjs"@) by { assert("js"@.len() != "mjs"@.len()); }
    assert("js"@ != "jsx"@) by { assert("js"@.len() != "jsx"@.len()); }
    assert("js"@ != "ts"@) by { assert("js"@[0] != "ts"@[0]); }
    assert("js"@ != "tsx"@) by { assert("js"@.len() != "tsx"@.len()); }
    assert("js"@ != "py"@) by { assert("js"@[0] != "py"@[0]); }
    assert("js"@ != "rs"@) by { assert("js"@[0] != "rs"@[0]); }
    assert("js"@ != "sh"@) by { assert("js"@[0] != "sh"@[0]); }
    assert("js"@ != "bash"@) by { assert("js"@.len() != "bash"@.len()); }
    assert("cjs"@ != "mjs"@) by { assert("cjs"@[0] != "mjs"@[0]); }
    assert("cjs"@ != "jsx"@) by { assert("cjs"@[0] != "jsx"@[0]); }
    assert("cjs"@ != "ts"@) by { assert("cjs"@.len() != "ts"@.len()); }
    assert("cjs"@ != "tsx"@) by { assert("cjs"@[0] != "tsx"@[0]); }
    assert("cjs"@ != "py"@) by { assert("cjs"@.len() != "py"@.len()); }
    assert("cjs"@ != "rs"@) by { assert("cjs"@.len() != "rs"@.len()); }
    assert("cjs"@ != "sh"@) by { assert("cjs"@.len() != "sh"@.len()); }
    assert("cjs"@ != "bash"@) by { assert("cjs"@.len() != "bash"@.len()); }
    assert("mjs"@ != "jsx"@) by { assert("mjs"@[0] != "jsx"@[0]); }
    assert("mjs"@ != "ts"@) by { assert("mjs"@.len() != "ts"@.len()); }
    assert("mjs"@ != "tsx"@) by { assert("mjs"@[0] != "tsx"@[0]); }
    assert("mjs"@ != "py"@) by { assert("mjs"@.len() != "py"@.len()); }
    assert("mjs"@ != "rs"@) by { assert("mjs"@.len() != "rs"@.len()); }
    assert("mjs"@ != "sh"@) by { assert("mjs"@.len() != "sh"@.len()); }
    assert("mjs"@ != "bash"@) by { assert("mjs"@.len() != "bash"@.len()); }
    assert("jsx"@ != "ts"@) by { assert("jsx"@.len() != "ts"@.len()); }
    assert("jsx"@ != "tsx"@) by { assert("jsx"@[0] != "tsx"@[0]); }
    assert("jsx"@ != "py"@) by { assert("jsx"@.len() != "py"@.len()); }
    assert("jsx"@ != "rs"@) by { assert("jsx"@.len() != "rs"@.len()); }
    assert("jsx"@ != "sh"@) by { assert("jsx"@.len() != "sh"@.len()); }
    assert("jsx"@ != "bash"@) by { assert("jsx"@.len() != "bash"@.len()); }
    assert("ts"@ != "tsx"@) by { assert("ts"@.len() != "tsx"@.len()); }
    assert("ts"@ != "py"@) by { assert("ts"@[0] != "py"@[0]); }
    assert("ts"@ != "rs"@) by { assert("ts"@[0] != "rs"@[0]); }
    assert("ts"@ != "sh"@) by { assert("ts"@[0] != "sh"@[0]); }
    assert("ts"@ != "bash"@) by { assert("ts"@.len() != "bash"@.len()); }
    assert("tsx"@ != "py"@) by { assert("tsx"@.len() != "py"@.len()); }
    assert("tsx"@ != "rs"@) by { assert("tsx"@.len() != "rs"@.len()); }
    assert("tsx"@ != "sh"@) by { assert("tsx"@.len() != "sh"@.len()); }
    assert("tsx"@ != "bash"@) by { assert("tsx"@.len() != "bash"@.len()); }
    assert("py"@ != "rs"@) by { assert("py"@[0] != "rs"@[0]); }
    assert("py"@ != "sh"@) by { assert("py"@[0] != "sh"@[0]); }
    assert("py"@ != "bash"@) by { assert("py"@.len() != "bash"@.len()); }
    assert("rs"@ != "sh"@) by { assert("rs"@[0] != "sh"@[0]); }
    assert("rs"@ != "bash"@) by { assert("rs"@.len() != "bash"@.len()); }
    assert("sh"@ != "bash"@) by { assert("sh"@.len() != "bash"@.len()); }
    assert("typescript"@ != "javascript"@) by { assert("typescript"@[0] != "javascript"@[0]); }
    assert("python"@ != "javascript"@) by { assert("python"@.len() != "javascript"@.len()); }
    assert("python"@ != "typescript"@) by { assert("python"@.len() != "typescript"@.len()); }
    assert("bash"@ != "javascript"@) by { assert("bash"@.len() != "javascript"@.len()); }
    assert("bash"@ != "typescript"@) by { assert("bash"@.len() != "typescript"@.len()); }
    assert("bash"@ != "python"@) by { assert("bash"@.len() != "python"@.len()); }
    assert("rust"@ != "javascript"@) by { assert("rust"@.len() != "javascript"@.len()); }
    assert("rust"@ != "typescript"@) by { assert("rust"@.len() != "typescript"@.len()); }
    assert("rust"@ != "python"@) by { assert("rust"@.len() != "python"@.len()); }
    assert("rust"@ != "bash"@) by { assert("rust"@[0] != "bash"@[0]); }
}

} // verus!
