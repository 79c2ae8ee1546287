//! Choosing which files of a project are read and parsed, and recording what
//! was read about each of them.

use vstd::prelude::*;
use vstd::string::*;
use vstd::utf8::encode_utf8;
use crate::text::{chars_of, matches_at, push_char, seq_ends_with, seq_starts_with};
use crate::config::{detect_language, path_extension_of, spec_language_for_extension};
use crate::config::{spec_default_ignore_patterns, views};
use crate::serialization::str_views;

verus! {

broadcast use vstd::string::group_string_axioms;

/// The folder names that exclude a file wherever they occur in its path.
pub open spec fn spec_scan_ignore_dirs() -> Seq<Seq<char>> {
    seq![
        ".git"@, "node_modules"@, "dist"@, "build"@, "vendor"@, "venv"@, ".venv"@, "env"@,
        ".env"@, "site-packages"@, "__pycache__"@, ".codebase-context"@, ".pytest_cache"@,
        ".ruff_cache"@, "logs"@, "tmp"@, "archive"@, "checkpoints"@, "data"@, "db"@,
        "target"@,
    ]
}

/// The folder names that exclude a file wherever they occur in its path.
pub fn scan_ignore_dirs() -> (dirs: Vec<&'static str>)
    ensures
        str_views(dirs@) == spec_scan_ignore_dirs(),
{
    let v = vec![
        ".git", "node_modules", "dist", "build", "vendor", "venv", ".venv", "env", ".env",
        "site-packages", "__pycache__", ".codebase-context", ".pytest_cache", ".ruff_cache",
        "logs", "tmp", "archive", "checkpoints", "data", "db", "target",
    ];
    assert(str_views(v@) =~= spec_scan_ignore_dirs());
    v
}

/// `path[start..end]` is one of the pieces that splitting `path` at every '/' gives.
pub open spec fn is_segment(path: Seq<char>, start: int, end: int) -> bool {
    &&& 0 <= start <= end <= path.len()
    &&& start == 0 || path[start - 1] == '/'
    &&& end == path.len() || path[end] == '/'
    &&& forall|k: int| start <= k < end ==> path[k] != '/'
}

/// Some '/'-separated piece of `path` is one of `dirs`.
pub open spec fn has_ignored_segment(path: Seq<char>, dirs: Seq<Seq<char>>) -> bool {
    exists|start: int, end: int|
        #[trigger] is_segment(path, start, end) && dirs.contains(path.subrange(start, end))
}

/// Whether one ignore pattern excludes `path`: "*.ext" excludes paths ending in
/// ".ext", "dir/**" excludes "dir" and everything under "dir/", and any other
/// pattern excludes exactly the path it spells.
pub open spec fn pattern_excludes(path: Seq<char>, pattern: Seq<char>) -> bool {
    if pattern.len() >= 2 && pattern[0] == '*' && pattern[1] == '.' {
        seq_ends_with(path, pattern.drop_first())
    } else if seq_ends_with(pattern, seq!['/', '*', '*']) {
        let prefix = pattern.subrange(0, pattern.len() - 3);
        path == prefix || seq_starts_with(path, prefix.push('/'))
    } else {
        path == pattern
    }
}

/// Whether a project-relative path is left out of the scan.
pub open spec fn spec_should_ignore(
    path: Seq<char>,
    patterns: Seq<Seq<char>>,
    dirs: Seq<Seq<char>>,
) -> bool {
    has_ignored_segment(path, dirs)
        || exists|i: int| 0 <= i < patterns.len() && #[trigger] pattern_excludes(path, patterns[i])
}

/// `v[from..to]` as a new vector.
fn sub_vec(v: &Vec<char>, from: usize, to: usize) -> (r: Vec<char>)
    requires
        from <= to <= v@.len(),
    ensures
        r@ == v@.subrange(from as int, to as int),
{
    let mut r: Vec<char> = Vec::new();
    let mut i = from;
    while i < to
        invariant
            from <= i <= to <= v@.len(),
            r@ == v@.subrange(from as int, i as int),
        decreases to - i,
    {
        r.push(v[i]);
        i = i + 1;
        assert(r@ =~= v@.subrange(from as int, i as int));
    }
    r
}

fn chars_equal(a: &Vec<char>, b: &Vec<char>) -> (r: bool)
    ensures
        r == (a@ == b@),
{
    if a.len() != b.len() {
        return false;
    }
    let r = matches_at(a, b, 0);
    proof {
        assert(a@.subrange(0, b@.len() as int) =~= a@);
    }
    r
}

fn chars_ends_with(s: &Vec<char>, suffix: &Vec<char>) -> (r: bool)
    ensures
        r == seq_ends_with(s@, suffix@),
{
    if suffix.len() > s.len() {
        return false;
    }
    matches_at(s, suffix, s.len() - suffix.len())
}

fn chars_starts_with(s: &Vec<char>, prefix: &Vec<char>) -> (r: bool)
    ensures
        r == seq_starts_with(s@, prefix@),
{
    if prefix.len() > s.len() {
        return false;
    }
    matches_at(s, prefix, 0)
}

/// Whether `pattern` excludes the path whose characters are `path`.
fn pattern_excludes_exec(path: &Vec<char>, pattern: &str) -> (r: bool)
    ensures
        r == pattern_excludes(path@, pattern@),
{
    let pc = chars_of(pattern);
    let n = pc.len();
    if n >= 2 && pc[0] == '*' && pc[1] == '.' {
        let ext = sub_vec(&pc, 1, n);
        assert(ext@ =~= pc@.drop_first());
        chars_ends_with(path, &ext)
    } else if n >= 3 && pc[n - 3] == '/' && pc[n - 2] == '*' && pc[n - 1] == '*' {
        assert(pc@.subrange(n - 3, n as int) =~= seq!['/', '*', '*']);
        let prefix = sub_vec(&pc, 0, n - 3);
        if chars_equal(path, &prefix) {
            return true;
        }
        let mut with_slash = prefix;
        with_slash.push('/');
        chars_starts_with(path, &with_slash)
    } else {
        proof {
            if seq_ends_with(pc@, seq!['/', '*', '*']) {
                assert(pc@.subrange(n - 3, n as int)[0] == '/');
                assert(pc@.subrange(n - 3, n as int)[1] == '*');
                assert(pc@.subrange(n - 3, n as int)[2] == '*');
            }
        }
        chars_equal(path, &pc)
    }
}

/// Whether `cs[start..end]` is one of `dirs`.
fn piece_is_listed(cs: &Vec<char>, start: usize, end: usize, dirs: &[&str]) -> (r: bool)
    requires
        start <= end <= cs@.len(),
    ensures
        r == str_views(dirs@).contains(cs@.subrange(start as int, end as int)),
{
    let ghost ds = str_views(dirs@);
    let seg = sub_vec(cs, start, end);
    let mut j: usize = 0;
    while j < dirs.len()
        invariant
            0 <= j <= dirs@.len(),
            seg@ == cs@.subrange(start as int, end as int),
            ds == str_views(dirs@),
            forall|q: int| 0 <= q < j ==> ds[q] != seg@,
        decreases dirs@.len() - j,
    {
        let dc = chars_of(dirs[j]);
        if chars_equal(&seg, &dc) {
            assert(ds[j as int] == seg@);
            return true;
        }
        j = j + 1;
    }
    false
}

/// The only piece of `path` that ends at `e` is the one that starts at `s`.
proof fn lemma_segment_unique(path: Seq<char>, s: int, s2: int, e: int)
    requires
        is_segment(path, s, e),
        is_segment(path, s2, e),
    ensures
        s == s2,
{
    if s < s2 {
        assert(path[s2 - 1] == '/');
    }
    if s2 < s {
        assert(path[s - 1] == '/');
    }
}

/// Whether some '/'-separated piece of `cs` is one of `dirs`.
fn has_ignored_segment_exec(cs: &Vec<char>, dirs: &[&str]) -> (r: bool)
    ensures
        r == has_ignored_segment(cs@, str_views(dirs@)),
{
    let ghost path = cs@;
    let ghost ds = str_views(dirs@);
    let n = cs.len();
    let mut start: usize = 0;
    let mut i: usize = 0;
    while i < n
        invariant
            n == cs@.len(),
            path == cs@,
            ds == str_views(dirs@),
            start <= i <= n,
            start == 0 || path[start - 1] == '/',
            forall|k: int| start <= k < i ==> path[k] != '/',
            forall|s: int, e: int|
                #[trigger] is_segment(path, s, e) && e < i ==> !ds.contains(path.subrange(s, e)),
        decreases n - i,
    {
        if cs[i] == '/' {
            assert(is_segment(path, start as int, i as int));
            if piece_is_listed(cs, start, i, dirs) {
                return true;
            }
            proof {
                assert forall|s: int, e: int|
                    #[trigger] is_segment(path, s, e) && e < i + 1
                    implies !ds.contains(path.subrange(s, e)) by {
                    if e == i {
                        lemma_segment_unique(path, s, start as int, e);
                    }
                }
            }
            start = i + 1;
        }
        i = i + 1;
    }
    assert(is_segment(path, start as int, n as int));
    if piece_is_listed(cs, start, n, dirs) {
        return true;
    }
    proof {
        assert forall|s: int, e: int| #[trigger] is_segment(path, s, e)
            implies !ds.contains(path.subrange(s, e)) by {
            if e == n {
                lemma_segment_unique(path, s, start as int, e);
            }
        }
    }
    false
}

/// Whether a project-relative path is left out of the scan: some piece of it
/// is one of `ignore_dirs`, or one of `patterns` excludes it.
pub fn should_ignore(path: &str, patterns: &[String], ignore_dirs: &[&str]) -> (r: bool)
    ensures
        r == spec_should_ignore(path@, views(patterns@), str_views(ignore_dirs@)),
{
    let cs = chars_of(path);
    if has_ignored_segment_exec(&cs, ignore_dirs) {
        return true;
    }
    let ghost ps = views(patterns@);
    let mut i: usize = 0;
    while i < patterns.len()
        invariant
            0 <= i <= patterns@.len(),
            cs@ == path@,
            ps == views(patterns@),
            forall|q: int| 0 <= q < i ==> !pattern_excludes(path@, ps[q]),
        decreases patterns@.len() - i,
    {
        if pattern_excludes_exec(&cs, patterns[i].as_str()) {
            assert(pattern_excludes(path@, ps[i as int]));
            return true;
        }
        i = i + 1;
    }
    false
}

/// Whether a byte counts against a file being text: control characters other
/// than the range from BEL to SO.
pub open spec fn is_suspicious_byte(b: u8) -> bool {
    (b < 7 || b > 14) && b < 32 && b != 9
}

pub open spec fn count_suspicious(s: Seq<u8>) -> nat
    decreases s.len(),
{
    if s.len() == 0 {
        0
    } else {
        count_suspicious(s.drop_last()) + if is_suspicious_byte(s.last()) { 1nat } else { 0nat }
    }
}

/// The part of a file that is looked at to tell binary from text.
pub open spec fn binary_probe(content: Seq<u8>) -> Seq<u8> {
    content.take(if content.len() < 1024 { content.len() as int } else { 1024 })
}

/// A file is taken for binary when its first 1024 bytes hold a zero byte or
/// more than 16 suspicious control bytes.
pub open spec fn spec_looks_binary(content: Seq<u8>) -> bool {
    binary_probe(content).contains(0u8) || count_suspicious(binary_probe(content)) > 16
}

/// Whether a file's content looks binary rather than text.
pub fn looks_binary(content: &[u8]) -> (r: bool)
    ensures
        r == spec_looks_binary(content@),
{
    let limit: usize = if content.len() < 1024 { content.len() } else { 1024 };
    let ghost probe = binary_probe(content@);
    let mut suspicious: usize = 0;
    let mut i: usize = 0;
    while i < limit
        invariant
            limit == probe.len(),
            limit <= content@.len(),
            probe == binary_probe(content@),
            probe == content@.take(limit as int),
            0 <= i <= limit,
            suspicious == count_suspicious(probe.take(i as int)),
            suspicious <= i,
            forall|j: int| 0 <= j < i ==> probe[j] != 0u8,
        decreases limit - i,
    {
        let byte = content[i];
        if byte == 0 {
            assert(probe[i as int] == 0u8);
            assert(probe.contains(0u8));
            return true;
        }
        assert(probe.take(i as int + 1).drop_last() =~= probe.take(i as int));
        if (byte < 7 || byte > 14) && byte < 32 && byte != 9 {
            suspicious = suspicious + 1;
        }
        i = i + 1;
    }
    assert(probe.take(limit as int) =~= probe);
    assert(!probe.contains(0u8));
    suspicious > 16
}

/// `path` with every '\\' turned into '/'.
pub open spec fn spec_normalize_separators(path: Seq<char>) -> Seq<char> {
    path.map_values(|c: char| if c == '\\' { '/' } else { c })
}

/// A path written with '/' between its components, whatever the platform used.
pub fn normalize_separators(path: &str) -> (r: String)
    ensures
        r@ == spec_normalize_separators(path@),
{
    let cs = chars_of(path);
    let mut r = String::new();
    let n = cs.len();
    for i in 0..n
        invariant
            n == cs@.len(),
            cs@ == path@,
            r@ == spec_normalize_separators(path@).take(i as int),
    {
        let c = cs[i];
        push_char(&mut r, if c == '\\' { '/' } else { c });
        assert(spec_normalize_separators(path@).take(i as int + 1)
            =~= spec_normalize_separators(path@).take(i as int).push(if c == '\\' { '/' } else { c }));
    }
    assert(spec_normalize_separators(path@).take(n as int) =~= spec_normalize_separators(path@));
    r
}

/// What `sha2::Sha256::digest` gives for some bytes.
pub uninterp spec fn sha256_of(data: Seq<u8>) -> Seq<u8>;

/// The SHA-256 digest of `data`: calls `sha2::Sha256::digest`, whose output is
/// always 32 bytes, and copies it into a vector.
#[verifier::external_body]
fn sha256_digest(data: &[u8]) -> (digest: Vec<u8>)
    ensures
        digest@ == sha256_of(data@),
        digest@.len() == 32,
{
    <sha2::Sha256 as sha2::Digest>::digest(data).to_vec()
}

/// The lower-case hexadecimal digit for `n` (below 16).
pub open spec fn hex_digit(n: nat) -> char {
    if n < 10 { crate::text::digit_char(n) }
    else if n == 10 { 'a' }
    else if n == 11 { 'b' }
    else if n == 12 { 'c' }
    else if n == 13 { 'd' }
    else if n == 14 { 'e' }
    else { 'f' }
}

/// Two lower-case hexadecimal digits per byte, most significant first.
pub open spec fn hex_lower(data: Seq<u8>) -> Seq<char>
    decreases data.len(),
{
    if data.len() == 0 {
        Seq::empty()
    } else {
        hex_lower(data.drop_last()) + seq![
            hex_digit((data.last() / 16) as nat),
            hex_digit((data.last() % 16) as nat),
        ]
    }
}

fn hex_digit_exec(n: u8) -> (c: char)
    requires
        n < 16,
    ensures
        c == hex_digit(n as nat),
{
    if n == 0 { '0' }
    else if n == 1 { '1' }
    else if n == 2 { '2' }
    else if n == 3 { '3' }
    else if n == 4 { '4' }
    else if n == 5 { '5' }
    else if n == 6 { '6' }
    else if n == 7 { '7' }
    else if n == 8 { '8' }
    else if n == 9 { '9' }
    else if n == 10 { 'a' }
    else if n == 11 { 'b' }
    else if n == 12 { 'c' }
    else if n == 13 { 'd' }
    else if n == 14 { 'e' }
    else { 'f' }
}

/// `data` written as lower-case hexadecimal, as `format!("{:x}", ..)` writes a digest.
pub fn to_hex_lower(data: &[u8]) -> (s: String)
    ensures
        s@ == hex_lower(data@),
{
    let mut s = String::new();
    let n = data.len();
    for i in 0..n
        invariant
            n == data@.len(),
            s@ == hex_lower(data@.take(i as int)),
    {
        let b = data[i];
        push_char(&mut s, hex_digit_exec(b / 16));
        push_char(&mut s, hex_digit_exec(b % 16));
        assert(data@.take(i as int + 1).drop_last() =~= data@.take(i as int));
        assert(s@ =~= hex_lower(data@.take(i as int + 1)));
    }
    assert(data@.take(n as int) =~= data@);
    s
}

/// The hash a file's content is recorded under: its SHA-256 digest in lower-case hex.
pub open spec fn spec_content_hash(content: Seq<u8>) -> Seq<char> {
    hex_lower(sha256_of(content))
}

/// The SHA-256 digest of `content`, in lower-case hexadecimal.
pub fn content_hash(content: &[u8]) -> (h: String)
    ensures
        h@ == spec_content_hash(content@),
{
    let digest = sha256_digest(content);
    to_hex_lower(digest.as_slice())
}

/// What `String::from_utf8_lossy` gives for some bytes.
pub uninterp spec fn utf8_lossy_of(bytes: Seq<u8>) -> Seq<char>;

/// The text of `bytes`: calls `String::from_utf8_lossy`, which puts U+FFFD in
/// place of each invalid sequence, and takes the result as an owned `String`.
#[verifier::external_body]
fn utf8_lossy(bytes: &[u8]) -> (s: String)
    ensures
        s@ == utf8_lossy_of(bytes@),
{
    String::from_utf8_lossy(bytes).into_owned()
}

/// `std::path::PathBuf`, carried through as an opaque value.
#[verifier::external_type_specification]
#[verifier::external_body]
pub struct ExPathBuf(std::path::PathBuf);

/// What the scan records about one source file.
pub struct FileManifest {
    /// The path relative to the project root, with '/' between components.
    pub file_path: String,
    pub absolute_path: std::path::PathBuf,
    pub language: String,
    pub size: u64,
    pub content_hash: String,
    pub content: String,
}

/// A file the scan will read: its relative path and its language.
pub struct ScanCandidate {
    pub file_path: String,
    pub language: String,
}

/// The language that detect_language gives for a path, if any.
pub open spec fn spec_detected_language(path: Seq<char>) -> Option<Seq<char>> {
    match path_extension_of(path) {
        Some(ext) => spec_language_for_extension(ext),
        None => None,
    }
}

/// Decides whether a file found under the project root is read: its relative
/// path (separators normalized) must not be ignored, and its language must be
/// one this tool parses.
pub fn scan_candidate(relative_path: &str, ignore_patterns: &[String]) -> (c: Option<ScanCandidate>)
    ensures
        ({
            let path = spec_normalize_separators(relative_path@);
            match c {
                Some(cand) => {
                    &&& !spec_should_ignore(path, views(ignore_patterns@), spec_scan_ignore_dirs())
                    &&& spec_detected_language(path) == Some(cand.language@)
                    &&& cand.file_path@ == path
                },
                None => spec_should_ignore(path, views(ignore_patterns@), spec_scan_ignore_dirs())
                    || spec_detected_language(path) is None,
            }
        }),
{
    let path = normalize_separators(relative_path);
    let dirs = scan_ignore_dirs();
    if should_ignore(path.as_str(), ignore_patterns, dirs.as_slice()) {
        return None;
    }
    match detect_language(path.as_str()) {
        Some(language) => Some(ScanCandidate { file_path: path, language }),
        None => None,
    }
}

/// The manifest entry for a candidate whose content was read: `None` when the
/// content looks binary, otherwise its size, hash and (lossily decoded) text.
pub fn manifest_entry(
    candidate: ScanCandidate,
    absolute_path: std::path::PathBuf,
    content: &[u8],
) -> (m: Option<FileManifest>)
    ensures
        m is None <==> spec_looks_binary(content@),
        m matches Some(e) ==> {
            &&& e.file_path == candidate.file_path
            &&& e.absolute_path == absolute_path
            &&& e.language == candidate.language
            &&& e.size == content@.len()
            &&& e.content_hash@ == spec_content_hash(content@)
            &&& e.content@ == utf8_lossy_of(content@)
        },
{
    if looks_binary(content) {
        return None;
    }
    let hash = content_hash(content);
    Some(FileManifest {
        file_path: candidate.file_path,
        absolute_path,
        language: candidate.language,
        size: content.len() as u64,
        content_hash: hash,
        content: utf8_lossy(content),
    })
}

/// Byte-wise lexicographic order, the order of `str` and `String`.
pub open spec fn lex_lt(a: Seq<u8>, b: Seq<u8>) -> bool
    decreases a.len(),
{
    if a.len() == 0 {
        b.len() > 0
    } else if b.len() == 0 {
        false
    } else if a[0] < b[0] {
        true
    } else if a[0] > b[0] {
        false
    } else {
        lex_lt(a.drop_first(), b.drop_first())
    }
}

pub proof fn lemma_lex_lt_transitive(a: Seq<u8>, b: Seq<u8>, c: Seq<u8>)
    requires
        lex_lt(a, b),
        lex_lt(b, c),
    ensures
        lex_lt(a, c),
    decreases a.len(),
{
    if a.len() > 0 && b.len() > 0 && c.len() > 0 && a[0] == b[0] && b[0] == c[0] {
        lemma_lex_lt_transitive(a.drop_first(), b.drop_first(), c.drop_first());
    }
}

pub proof fn lemma_lex_lt_total(a: Seq<u8>, b: Seq<u8>)
    ensures
        lex_lt(a, b) || lex_lt(b, a) || a == b,
    decreases a.len(),
{
    if a.len() > 0 && b.len() > 0 && a[0] == b[0] {
        lemma_lex_lt_total(a.drop_first(), b.drop_first());
        if a.drop_first() == b.drop_first() {
            assert(a =~= seq![a[0]] + a.drop_first());
            assert(b =~= seq![b[0]] + b.drop_first());
        }
    } else if a.len() == 0 && b.len() == 0 {
        assert(a =~= b);
    }
}

pub proof fn lemma_lex_lt_asymmetric(a: Seq<u8>, b: Seq<u8>)
    requires
        lex_lt(a, b),
    ensures
        !lex_lt(b, a),
    decreases a.len(),
{
    if a.len() > 0 && b.len() > 0 && a[0] == b[0] {
        lemma_lex_lt_asymmetric(a.drop_first(), b.drop_first());
    }
}

/// Whether `a` sorts before `b` byte-wise.
fn bytes_lt(a: &[u8], b: &[u8]) -> (r: bool)
    ensures
        r == lex_lt(a@, b@),
{
    let mut i: usize = 0;
    assert(a@.skip(0) =~= a@);
    assert(b@.skip(0) =~= b@);
    while i < a.len() && i < b.len()
        invariant
            0 <= i <= a@.len(),
            i <= b@.len(),
            lex_lt(a@, b@) == lex_lt(a@.skip(i as int), b@.skip(i as int)),
        decreases a@.len() - i,
    {
        if a[i] < b[i] {
            return true;
        }
        if a[i] > b[i] {
            return false;
        }
        assert(a@.skip(i as int).drop_first() =~= a@.skip(i as int + 1));
        assert(b@.skip(i as int).drop_first() =~= b@.skip(i as int + 1));
        i = i + 1;
    }
    i == a.len() && i < b.len()
}

/// The key a manifest is sorted by: the bytes of the relative path.
pub open spec fn path_key(m: FileManifest) -> Seq<u8> {
    encode_utf8(m.file_path@)
}

/// Every entry's path sorts no later than the next ones'.
pub open spec fn sorted_by_path(v: Seq<FileManifest>) -> bool {
    forall|i: int, j: int| 0 <= i < j < v.len() ==> !lex_lt(path_key(v[j]), path_key(v[i]))
}

/// The first position in sorted `v` whose path does not sort before `item`'s.
fn lower_bound(v: &Vec<FileManifest>, item: &FileManifest) -> (pos: usize)
    requires
        sorted_by_path(v@),
    ensures
        pos <= v@.len(),
        forall|q: int| 0 <= q < pos ==> lex_lt(path_key(v@[q]), path_key(*item)),
        forall|q: int| pos <= q < v@.len() ==> !lex_lt(path_key(v@[q]), path_key(*item)),
{
    let key = item.file_path.as_str().as_bytes();
    let mut lo: usize = 0;
    let mut hi: usize = v.len();
    while lo < hi
        invariant
            lo <= hi <= v@.len(),
            sorted_by_path(v@),
            key@ == path_key(*item),
            forall|q: int| 0 <= q < lo ==> lex_lt(path_key(v@[q]), path_key(*item)),
            forall|q: int| hi <= q < v@.len() ==> !lex_lt(path_key(v@[q]), path_key(*item)),
        decreases hi - lo,
    {
        let mid = lo + (hi - lo) / 2;
        let mid_key = v[mid].file_path.as_str().as_bytes();
        if bytes_lt(mid_key, key) {
            proof {
                assert forall|q: int| 0 <= q < mid + 1 implies lex_lt(path_key(v@[q]), path_key(*item)) by {
                    if q < mid {
                        lemma_lex_lt_total(path_key(v@[q]), path_key(v@[mid as int]));
                        if lex_lt(path_key(v@[q]), path_key(v@[mid as int])) {
                            lemma_lex_lt_transitive(path_key(v@[q]), path_key(v@[mid as int]), path_key(*item));
                        }
                    }
                }
            }
            lo = mid + 1;
        } else {
            proof {
                assert forall|q: int| mid <= q < v@.len() implies !lex_lt(path_key(v@[q]), path_key(*item)) by {
                    if q > mid && lex_lt(path_key(v@[q]), path_key(*item)) {
                        lemma_lex_lt_total(path_key(v@[q]), path_key(v@[mid as int]));
                        if lex_lt(path_key(v@[mid as int]), path_key(v@[q])) {
                            lemma_lex_lt_transitive(path_key(v@[mid as int]), path_key(v@[q]), path_key(*item));
                        }
                    }
                }
            }
            hi = mid;
        }
    }
    lo
}

/// `sorted[k]` is `original[order[k]]`, no original entry is used twice, and
/// entries with equal paths keep their original order.
pub open spec fn is_stable_arrangement(sorted: Seq<FileManifest>, original: Seq<FileManifest>, order: Seq<int>) -> bool {
    &&& order.len() == sorted.len()
    &&& forall|k: int| 0 <= k < order.len() ==> 0 <= #[trigger] order[k] < original.len() && sorted[k] == original[order[k]]
    &&& forall|k: int, l: int| 0 <= k < l < order.len() ==> #[trigger] order[k] != #[trigger] order[l]
    &&& forall|k: int, l: int| 0 <= k < l < order.len() && path_key(sorted[k]) == path_key(sorted[l])
        ==> #[trigger] order[k] < #[trigger] order[l]
}

/// The manifest ordered by relative path (byte-wise), entries with equal
/// paths keeping their order, as a stable sort by `file_path` orders it.
pub fn sort_manifest(manifest: Vec<FileManifest>) -> (sorted: Vec<FileManifest>)
    ensures
        sorted@.to_multiset() == manifest@.to_multiset(),
        sorted_by_path(sorted@),
        exists|order: Seq<int>| is_stable_arrangement(sorted@, manifest@, order),
{
    let ghost original = manifest@;
    let mut rest = manifest;
    let mut sorted: Vec<FileManifest> = Vec::new();
    let ghost mut order: Seq<int> = Seq::empty();
    proof {
        vstd::seq_lib::to_multiset_len(sorted@);
        assert(sorted@.to_multiset() =~= vstd::multiset::Multiset::empty());
        assert(sorted@.to_multiset().add(rest@.to_multiset()) =~= original.to_multiset());
        assert(rest@ =~= original.take(rest@.len() as int));
    }
    while rest.len() > 0
        invariant
            sorted_by_path(sorted@),
            sorted@.to_multiset().add(rest@.to_multiset()) == original.to_multiset(),
            rest@.len() <= original.len(),
            rest@ == original.take(rest@.len() as int),
            is_stable_arrangement(sorted@, original, order),
            forall|k: int| 0 <= k < order.len() ==> #[trigger] order[k] >= rest@.len(),
        decreases rest@.len(),
    {
        let ghost before = rest@;
        let item = rest.pop().unwrap();
        let ghost r = rest@.len() as int;
        proof {
            assert(before =~= rest@.push(item));
            assert(rest@ =~= original.take(r));
            assert(item == original[r]);
        }
        let pos = lower_bound(&sorted, &item);
        let ghost old_sorted = sorted@;
        let ghost old_order = order;
        sorted.insert(pos, item);
        proof {
            order = old_order.insert(pos as int, r);
            assert forall|i: int, j: int| 0 <= i < j < sorted@.len()
                implies !lex_lt(path_key(sorted@[j]), path_key(sorted@[i])) by {
                if i < pos && j == pos {
                    lemma_lex_lt_asymmetric(path_key(old_sorted[i]), path_key(item));
                } else if i == pos && j > pos {
                    assert(sorted@[j] == old_sorted[j - 1]);
                } else if i < pos && j > pos {
                    assert(sorted@[j] == old_sorted[j - 1]);
                } else if i > pos {
                    assert(sorted@[j] == old_sorted[j - 1]);
                    assert(sorted@[i] == old_sorted[i - 1]);
                }
            }
            assert forall|k: int| 0 <= k < order.len() implies
                0 <= #[trigger] order[k] < original.len() && sorted@[k] == original[order[k]] by {
                if k > pos {
                    assert(order[k] == old_order[k - 1]);
                    assert(sorted@[k] == old_sorted[k - 1]);
                } else if k < pos {
                    assert(order[k] == old_order[k]);
                }
            }
            assert forall|k: int| 0 <= k < order.len() implies #[trigger] order[k] >= rest@.len() by {
                if k > pos {
                    assert(order[k] == old_order[k - 1]);
                } else if k < pos {
                    assert(order[k] == old_order[k]);
                }
            }
            assert forall|k: int, l: int| 0 <= k < l < order.len() implies #[trigger] order[k] != #[trigger] order[l] by {
                if k == pos {
                    assert(order[l] == old_order[l - 1]);
                } else if l == pos {
                    assert(order[k] == old_order[k]);
                } else if k > pos {
                    assert(order[k] == old_order[k - 1]);
                    assert(order[l] == old_order[l - 1]);
                } else if l > pos {
                    assert(order[k] == old_order[k]);
                    assert(order[l] == old_order[l - 1]);
                } else {
                    assert(order[k] == old_order[k]);
                    assert(order[l] == old_order[l]);
                }
            }
            assert forall|k: int, l: int| 0 <= k < l < order.len() && path_key(sorted@[k]) == path_key(sorted@[l])
                implies #[trigger] order[k] < #[trigger] order[l] by {
                if k == pos {
                    assert(order[l] == old_order[l - 1]);
                } else if l == pos {
                    assert(sorted@[k] == old_sorted[k]);
                    assert(lex_lt(path_key(old_sorted[k]), path_key(item)));
                } else if k > pos {
                    assert(order[k] == old_order[k - 1]);
                    assert(order[l] == old_order[l - 1]);
                    assert(sorted@[k] == old_sorted[k - 1]);
                    assert(sorted@[l] == old_sorted[l - 1]);
                } else if l > pos {
                    assert(order[k] == old_order[k]);
                    assert(order[l] == old_order[l - 1]);
                    assert(sorted@[k] == old_sorted[k]);
                    assert(sorted@[l] == old_sorted[l - 1]);
                } else {
                    assert(order[k] == old_order[k]);
                    assert(order[l] == old_order[l]);
                    assert(sorted@[k] == old_sorted[k]);
                    assert(sorted@[l] == old_sorted[l]);
                }
            }
            assert(sorted@ == old_sorted.insert(pos as int, item));
            vstd::seq_lib::to_multiset_insert(old_sorted, pos as int, item);
            vstd::seq_lib::to_multiset_build(rest@, item);
            assert(sorted@.to_multiset().add(rest@.to_multiset())
                =~= old_sorted.to_multiset().add(before.to_multiset()));
        }
    }
    proof {
        vstd::seq_lib::to_multiset_len(rest@);
    }
    assert(rest@.to_multiset() =~= vstd::multiset::Multiset::empty());
    assert(sorted@.to_multiset().add(rest@.to_multiset()) =~= sorted@.to_multiset());
    assert(is_stable_arrangement(sorted@, original, order));
    sorted
}

/// The tool's own context folder is never scanned: a path with a
/// ".codebase-context" component is ignored, whatever the ignore patterns.
pub proof fn law_context_folder_is_never_scanned(path: Seq<char>, patterns: Seq<Seq<char>>, start: int, end: int)
    requires
        is_segment(path, start, end),
        path.subrange(start, end) == ".codebase-context"@,
    ensures
        spec_should_ignore(path, patterns, spec_scan_ignore_dirs()),
{
    assert(spec_scan_ignore_dirs()[11] == ".codebase-context"@);
    assert(spec_scan_ignore_dirs().contains(path.subrange(start, end)));
}

/// Whether a file looks binary depends on its first 1024 bytes only.
pub proof fn law_binary_check_reads_only_the_head(content: Seq<u8>)
    ensures
        spec_looks_binary(content) == spec_looks_binary(binary_probe(content)),
{
    assert(binary_probe(binary_probe(content)) =~= binary_probe(content));
}

/// A file with a zero byte among its first 1024 bytes is taken for binary.
pub proof fn law_zero_byte_means_binary(content: Seq<u8>, i: int)
    requires
        0 <= i < content.len(),
        i < 1024,
        content[i] == 0u8,
    ensures
        spec_looks_binary(content),
{
    assert(binary_probe(content)[i] == 0u8);
}


/// No bytes of a sequence whose every byte is at least 7 and either at most 14
/// or at least 32 (so tab, line feed, carriage return and printable text) are
/// counted against it.
proof fn lemma_no_control_bytes_counted(s: Seq<u8>)
    requires
        forall|j: int| 0 <= j < s.len() ==> #[trigger] s[j] >= 7 && (s[j] <= 14 || s[j] >= 32),
    ensures
        count_suspicious(s) == 0,
    decreases s.len(),
{
    if s.len() > 0 {
        assert forall|j: int| 0 <= j < s.drop_last().len() implies
            #[trigger] s.drop_last()[j] >= 7 && (s.drop_last()[j] <= 14 || s.drop_last()[j] >= 32) by {
            assert(s.drop_last()[j] == s[j]);
        }
        lemma_no_control_bytes_counted(s.drop_last());
        assert(s.last() == s[s.len() - 1]);
    }
}

/// Text made of printable bytes and of the control bytes from BEL to SO (tab,
/// line feed and carriage return among them) never looks binary, however long.
pub proof fn law_text_never_looks_binary(content: Seq<u8>)
    requires
        forall|j: int| 0 <= j < content.len() ==>
            #[trigger] content[j] >= 32u8 || (7u8 <= content[j] && content[j] <= 14u8),
    ensures
        !spec_looks_binary(content),
{
    let probe = binary_probe(content);
    assert forall|j: int| 0 <= j < probe.len() implies
        #[trigger] probe[j] >= 7 && (probe[j] <= 14 || probe[j] >= 32) by {
        assert(probe[j] == content[j]);
    }
    lemma_no_control_bytes_counted(probe);
    if probe.contains(0u8) {
        let j = choose|j: int| 0 <= j < probe.len() && probe[j] == 0u8;
        assert(probe[j] == content[j]);
    }
}

/// Seventeen control bytes below BEL (other than zero) at the start of a file
/// make it look binary.
pub proof fn law_many_low_control_bytes_look_binary(content: Seq<u8>)
    requires
        content.len() >= 17,
        forall|j: int| 0 <= j < 17 ==> 1u8 <= #[trigger] content[j] && content[j] < 7u8,
    ensures
        spec_looks_binary(content),
{
    let probe = binary_probe(content);
    assert(probe.take(17).len() == 17);
    assert forall|j: int| 0 <= j < 17 implies #[trigger] probe.take(17)[j] == content[j] by {}
    lemma_count_at_least_prefix(probe, 17);
    lemma_all_counted(probe.take(17));
}

/// Counting over a prefix counts no more than over the whole.
proof fn lemma_count_at_least_prefix(s: Seq<u8>, n: int)
    requires
        0 <= n <= s.len(),
    ensures
        count_suspicious(s.take(n)) <= count_suspicious(s),
    decreases s.len(),
{
    if n < s.len() {
        assert(s.drop_last().take(n) =~= s.take(n));
        lemma_count_at_least_prefix(s.drop_last(), n);
    } else {
        assert(s.take(n) =~= s);
    }
}

/// A sequence of suspicious bytes counts every one of them.
proof fn lemma_all_counted(s: Seq<u8>)
    requires
        forall|j: int| 0 <= j < s.len() ==> 1u8 <= #[trigger] s[j] && s[j] < 7u8,
    ensures
        count_suspicious(s) == s.len(),
    decreases s.len(),
{
    if s.len() > 0 {
        assert forall|j: int| 0 <= j < s.drop_last().len() implies
            1u8 <= #[trigger] s.drop_last()[j] && s.drop_last()[j] < 7u8 by {
            assert(s.drop_last()[j] == s[j]);
        }
        lemma_all_counted(s.drop_last());
        assert(s.last() == s[s.len() - 1]);
    }
}

/// A pattern "*." followed by an extension leaves out exactly the paths that end
/// in "." followed by that extension (where no folder of the path is ignored).
pub proof fn law_extension_pattern_matches_dot_suffix(path: Seq<char>, ext: Seq<char>, dirs: Seq<Seq<char>>)
    requires
        !has_ignored_segment(path, dirs),
    ensures
        spec_should_ignore(path, seq![seq!['*', '.'] + ext], dirs) <==> seq_ends_with(path, seq!['.'] + ext),
{
    let pattern = seq!['*', '.'] + ext;
    assert(pattern.drop_first() =~= seq!['.'] + ext);
    assert(pattern[0] == '*' && pattern[1] == '.');
    if seq_ends_with(path, seq!['.'] + ext) {
        assert(pattern_excludes(path, seq![pattern][0]));
    }
}

/// A folder pattern "dir/**" leaves out nothing that the folder name `dir`
/// among the ignored folders does not already leave out.
proof fn lemma_folder_pattern_adds_nothing(path: Seq<char>, dir: Seq<char>, dirs: Seq<Seq<char>>)
    requires
        dir.len() >= 1,
        dir[0] != '*',
        forall|k: int| 0 <= k < dir.len() ==> dir[k] != '/',
        dirs.contains(dir),
        !has_ignored_segment(path, dirs),
    ensures
        !pattern_excludes(path, dir + seq!['/', '*', '*']),
{
    let pattern = dir + seq!['/', '*', '*'];
    assert(pattern[0] == dir[0]);
    assert(pattern.subrange(pattern.len() - 3, pattern.len() as int) =~= seq!['/', '*', '*']);
    let prefix = pattern.subrange(0, pattern.len() - 3);
    assert(prefix =~= dir);
    if path == prefix {
        assert(path.subrange(0, path.len() as int) =~= path);
        assert(is_segment(path, 0, path.len() as int));
    }
    if seq_starts_with(path, prefix.push('/')) {
        assert(path.subrange(0, dir.len() as int) =~= dir) by {
            assert forall|k: int| 0 <= k < dir.len() implies path[k] == dir[k] by {
                assert(path.subrange(0, prefix.push('/').len() as int)[k] == prefix.push('/')[k]);
            }
        }
        assert forall|k: int| 0 <= k < dir.len() implies path[k] != '/' by {
            assert(path.subrange(0, dir.len() as int)[k] == dir[k]);
        }
        assert(path[dir.len() as int] == '/') by {
            assert(path.subrange(0, prefix.push('/').len() as int)[dir.len() as int] == prefix.push('/')[dir.len() as int]);
        }
        assert(is_segment(path, 0, dir.len() as int));
    }
}

/// Under the default ignore patterns and folders, a path is left out of the scan
/// exactly when one of its folders is ignored or it ends in ".min.js", ".map",
/// ".lock" or ".log"; so "src/app.js" is scanned while "src/app.min.js" is not.
pub proof fn law_default_patterns_leave_out_exactly(path: Seq<char>)
    ensures
        spec_should_ignore(path, spec_default_ignore_patterns(), spec_scan_ignore_dirs()) <==> (
            has_ignored_segment(path, spec_scan_ignore_dirs())
            || seq_ends_with(path, ".min.js"@)
            || seq_ends_with(path, ".map"@)
            || seq_ends_with(path, ".lock"@)
            || seq_ends_with(path, ".log"@)
        ),
{
    reveal_strlit("*.min.js");
    reveal_strlit(".min.js");
    reveal_strlit("*.map");
    reveal_strlit(".map");
    reveal_strlit("*.lock");
    reveal_strlit(".lock");
    reveal_strlit("*.log");
    reveal_strlit(".log");
    let ps = spec_default_ignore_patterns();
    let ds = spec_scan_ignore_dirs();
    assert(ps[20].drop_first() =~= ".min.js"@);
    assert(ps[21].drop_first() =~= ".map"@);
    assert(ps[22].drop_first() =~= ".lock"@);
    assert(ps[23].drop_first() =~= ".log"@);
    if seq_ends_with(path, ".min.js"@) { assert(pattern_excludes(path, ps[20])); }
    if seq_ends_with(path, ".map"@) { assert(pattern_excludes(path, ps[21])); }
    if seq_ends_with(path, ".lock"@) { assert(pattern_excludes(path, ps[22])); }
    if seq_ends_with(path, ".log"@) { assert(pattern_excludes(path, ps[23])); }
    if !has_ignored_segment(path, ds) && !seq_ends_with(path, ".min.js"@) && !seq_ends_with(path, ".map"@)
        && !seq_ends_with(path, ".lock"@) && !seq_ends_with(path, ".log"@) {
        lemma_default_folder_patterns(path);
        assert(ps.len() == 24);
        assert forall|i: int| 0 <= i < ps.len() implies !#[trigger] pattern_excludes(path, ps[i]) by {
            if i < 20 {
                assert(!pattern_excludes(path, ps[i]));
            }
        }
    }
}

/// The first twenty default patterns are "dir/**" for the first twenty ignored
/// folders, and add nothing to them.
proof fn lemma_default_folder_patterns(path: Seq<char>)
    requires
        !has_ignored_segment(path, spec_scan_ignore_dirs()),
    ensures
        forall|i: int| 0 <= i < 20 ==> !#[trigger] pattern_excludes(path, spec_default_ignore_patterns()[i]),
{
    reveal_strlit(".git"); reveal_strlit("node_modules"); reveal_strlit("dist"); reveal_strlit("build");
    reveal_strlit("vendor"); reveal_strlit("venv"); reveal_strlit(".venv"); reveal_strlit("env");
    reveal_strlit(".env"); reveal_strlit("site-packages"); reveal_strlit("__pycache__");
    reveal_strlit(".codebase-context"); reveal_strlit(".pytest_cache"); reveal_strlit(".ruff_cache");
    reveal_strlit("logs"); reveal_strlit("tmp"); reveal_strlit("archive"); reveal_strlit("checkpoints");
    reveal_strlit("data"); reveal_strlit("db");
    reveal_strlit(".git/**"); reveal_strlit("node_modules/**"); reveal_strlit("dist/**"); reveal_strlit("build/**");
    reveal_strlit("vendor/**"); reveal_strlit("venv/**"); reveal_strlit(".venv/**"); reveal_strlit("env/**");
    reveal_strlit(".env/**"); reveal_strlit("site-packages/**"); reveal_strlit("__pycache__/**");
    reveal_strlit(".codebase-context/**"); reveal_strlit(".pytest_cache/**"); reveal_strlit(".ruff_cache/**");
    reveal_strlit("logs/**"); reveal_strlit("tmp/**"); reveal_strlit("archive/**"); reveal_strlit("checkpoints/**");
    reveal_strlit("data/**"); reveal_strlit("db/**");
    let ps = spec_default_ignore_patterns();
    let ds = spec_scan_ignore_dirs();
    assert forall|i: int| 0 <= i < 20 implies !#[trigger] pattern_excludes(path, ps[i]) by {
        let pair: (Seq<char>, Seq<char>) =
            if i == 0 { (ps[0], ds[1]) } else if i == 1 { (ps[1], ds[0]) } else { (ps[i], ds[i]) };
        assert(ps[i] == pair.0);
        let dir = pair.1;
        assert(ds.contains(dir));
        assert(ps[i] =~= dir + seq!['/', '*', '*']);
        assert(dir.len() >= 1 && dir[0] != '*');
        assert(forall|k: int| 0 <= k < dir.len() ==> dir[k] != '/');
        lemma_folder_pattern_adds_nothing(path, dir, ds);
    }
}

/// A file of at most 16 bytes with no zero byte is never taken for binary:
/// more than 16 suspicious bytes are needed.
pub proof fn law_sixteen_control_bytes_are_not_enough(content: Seq<u8>)
    requires
        content.len() <= 16,
        forall|j: int| 0 <= j < content.len() ==> #[trigger] content[j] != 0u8,
    ensures
        !spec_looks_binary(content),
{
    let probe = binary_probe(content);
    assert(probe =~= content);
    lemma_count_at_most_len(content);
    if content.contains(0u8) {
        let j = choose|j: int| 0 <= j < content.len() && content[j] == 0u8;
    }
}

proof fn lemma_count_at_most_len(s: Seq<u8>)
    ensures
        count_suspicious(s) <= s.len(),
    decreases s.len(),
{
    if s.len() > 0 {
        lemma_count_at_most_len(s.drop_last());
    }
}

/// A file whose first 1024 bytes are printable or tab-like text is never taken
/// for binary, whatever follows them.
pub proof fn law_text_head_is_enough(content: Seq<u8>)
    requires
        forall|j: int| 0 <= j < content.len() && j < 1024 ==>
            #[trigger] content[j] >= 32u8 || (7u8 <= content[j] && content[j] <= 14u8),
    ensures
        !spec_looks_binary(content),
{
    let probe = binary_probe(content);
    assert forall|j: int| 0 <= j < probe.len() implies
        #[trigger] probe[j] >= 32u8 || (7u8 <= probe[j] && probe[j] <= 14u8) by {
        assert(probe[j] == content[j]);
    }
    law_text_never_looks_binary(probe);
    law_binary_check_reads_only_the_head(content);
}

} // verus!
