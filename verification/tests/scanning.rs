use codebase_context_graph::scanner::{
    content_hash, looks_binary, manifest_entry, normalize_separators, scan_candidate,
    scan_ignore_dirs, should_ignore, sort_manifest, to_hex_lower, FileManifest, ScanCandidate,
};
use codebase_context_graph::config::default_ignore_patterns;
use std::path::PathBuf;

fn ignored(path: &str) -> bool {
    should_ignore(path, &default_ignore_patterns(), &scan_ignore_dirs())
}

#[test]
fn ignored_folders_and_patterns() {
    assert!(ignored("node_modules/react/index.js"));
    assert!(ignored("web/node_modules/x.js"));
    assert!(ignored("target/debug/build.rs"));
    assert!(ignored(".codebase-context/graph.json"));
    assert!(ignored("a/b/.git/hooks/pre-commit.sh"));
    assert!(ignored("src/app.min.js"));
    assert!(ignored("styles/site.css.map"));
    assert!(ignored("Cargo.lock"));
    assert!(ignored("build"));
    assert!(!ignored("src/main.rs"));
    assert!(!ignored("my_data/load.py"));
    assert!(!ignored("src/builder.js"));
    assert!(!ignored("app.min.jsx"));
}

#[test]
fn custom_patterns() {
    let patterns = vec!["generated/**".to_string(), "src/skip.py".to_string(), "*.d.ts".to_string()];
    let dirs: Vec<&str> = vec![];
    assert!(should_ignore("generated", &patterns, &dirs));
    assert!(should_ignore("generated/a.ts", &patterns, &dirs));
    assert!(!should_ignore("generated2/a.ts", &patterns, &dirs));
    assert!(should_ignore("src/skip.py", &patterns, &dirs));
    assert!(!should_ignore("src/skip.pyc", &patterns, &dirs));
    assert!(should_ignore("types/index.d.ts", &patterns, &dirs));
    assert!(!should_ignore("types/index.ts", &patterns, &dirs));
}

#[test]
fn binary_detection() {
    assert!(!looks_binary(b"fn main() {}\n"));
    assert!(!looks_binary(b""));
    assert!(looks_binary(b"abc\0def"));
    // Tabs and line endings are not suspicious.
    assert!(!looks_binary(&[9u8; 100]));
    assert!(!looks_binary(&[13u8; 100]));
    // Sixteen suspicious bytes pass, seventeen do not.
    assert!(!looks_binary(&[1u8; 16]));
    assert!(looks_binary(&[1u8; 17]));
    // Only the first 1024 bytes are looked at.
    let mut late_zero = vec![b'a'; 1024];
    late_zero.push(0);
    assert!(!looks_binary(&late_zero));
    let mut early_zero = vec![b'a'; 1023];
    early_zero.push(0);
    assert!(looks_binary(&early_zero));
}

#[test]
fn separators_and_hashes() {
    assert_eq!(normalize_separators("src\\lib\\a.rs"), "src/lib/a.rs");
    assert_eq!(normalize_separators("plain/path"), "plain/path");
    assert_eq!(to_hex_lower(&[0x00, 0xab, 0x0f, 0xff]), "00ab0fff");
    assert_eq!(
        content_hash(b""),
        "e3b0c44298fc1c149afbf4c8996fb92427ae41e4649b934ca495991b7852b855"
    );
    assert_eq!(
        content_hash(b"abc"),
        "ba7816bf8f01cfea414140de5dae2223b00361a396177a9cb410ff61f20015ad"
    );
}

#[test]
fn choosing_and_recording_files() {
    let patterns = default_ignore_patterns();
    let c = scan_candidate("src\\util.py", &patterns).expect("a python file is scanned");
    assert_eq!(c.file_path, "src/util.py");
    assert_eq!(c.language, "python");
    assert!(scan_candidate("docs/readme.md", &patterns).is_none());
    assert!(scan_candidate("node_modules/a.js", &patterns).is_none());

    let entry = manifest_entry(c, PathBuf::from("/p/src/util.py"), b"def f():\n    pass\n").unwrap();
    assert_eq!(entry.file_path, "src/util.py");
    assert_eq!(entry.size, 18);
    assert_eq!(entry.content, "def f():\n    pass\n");
    assert_eq!(entry.content_hash.len(), 64);
    assert_eq!(entry.absolute_path, PathBuf::from("/p/src/util.py"));

    let c = ScanCandidate { file_path: "x.js".to_string(), language: "javascript".to_string() };
    assert!(manifest_entry(c, PathBuf::from("/p/x.js"), b"\0\0\0").is_none());

    let c = ScanCandidate { file_path: "y.js".to_string(), language: "javascript".to_string() };
    let lossy = manifest_entry(c, PathBuf::from("/p/y.js"), &[b'a', 0xff, b'b']).unwrap();
    assert_eq!(lossy.content, "a\u{fffd}b");
}

fn entry(path: &str) -> FileManifest {
    FileManifest {
        file_path: path.to_string(),
        absolute_path: PathBuf::from(path),
        language: "python".to_string(),
        size: 0,
        content_hash: String::new(),
        content: String::new(),
    }
}

#[test]
fn manifest_is_sorted_by_path() {
    let unsorted = vec![entry("src/b.py"), entry("Z.py"), entry("src/a.py"), entry("a.py"), entry("src/a/x.py")];
    let sorted = sort_manifest(unsorted);
    let paths: Vec<&str> = sorted.iter().map(|m| m.file_path.as_str()).collect();
    assert_eq!(paths, vec!["Z.py", "a.py", "src/a.py", "src/a/x.py", "src/b.py"]);
    assert!(sort_manifest(vec![]).is_empty());
}

#[test]
fn equal_paths_keep_their_order() {
    let mut first = entry("b.py");
    first.size = 1;
    let mut second = entry("b.py");
    second.size = 2;
    let mut third = entry("b.py");
    third.size = 3;
    let sorted = sort_manifest(vec![first, entry("c.py"), second, entry("a.py"), third]);
    let seen: Vec<(&str, u64)> = sorted.iter().map(|m| (m.file_path.as_str(), m.size)).collect();
    assert_eq!(seen, vec![("a.py", 0), ("b.py", 1), ("b.py", 2), ("b.py", 3), ("c.py", 0)]);
}
