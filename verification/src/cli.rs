//! Reading the command line.

use vstd::prelude::*;
use vstd::string::*;
use crate::config::views;
use crate::text::str_eq;

verus! {

broadcast use vstd::string::group_string_axioms;

/// What the command line asks for.
pub enum CliCommand {
    /// Too few arguments: print the usage and fail.
    Usage,
    Init,
    /// Index the project; `advanced` when "--analysis-mode" was given.
    Index { advanced: bool },
    Watch,
    Smoke,
    Serve,
    /// A command this tool does not know.
    Unknown(String),
}

/// The value after the first "--project-root", if that is not the last argument.
pub open spec fn spec_project_root_arg(args: Seq<Seq<char>>) -> Option<Seq<char>> {
    if exists|i: int| 0 <= i < args.len() && args[i] == "--project-root"@ {
        let i = choose|i: int| 0 <= i < args.len() && args[i] == "--project-root"@
            && forall|j: int| 0 <= j < i ==> args[j] != "--project-root"@;
        if i + 1 < args.len() { Some(args[i + 1]) } else { None }
    } else {
        None
    }
}

/// The project root given on the command line: the argument after the first
/// "--project-root", `None` when there is none.
pub fn project_root_arg(args: &[String]) -> (root: Option<String>)
    ensures
        crate::text::opt_view(root) == spec_project_root_arg(views(args@)),
{
    let ghost a = views(args@);
    let n = args.len();
    for i in 0..n
        invariant
            n == args@.len(),
            a == views(args@),
            forall|j: int| 0 <= j < i ==> a[j] != "--project-root"@,
    {
        if str_eq(args[i].as_str(), "--project-root") {
            proof {
                let k = choose|k: int| 0 <= k < a.len() && a[k] == "--project-root"@
                    && forall|j: int| 0 <= j < k ==> a[j] != "--project-root"@;
                assert(a[i as int] == "--project-root"@);
                if k < i {
                    assert(a[k] != "--project-root"@);
                }
                if k > i {
                    assert(a[i as int] != "--project-root"@);
                }
                assert(k == i);
            }
            if i + 1 < n {
                return Some(args[i + 1].clone());
            } else {
                return None;
            }
        }
    }
    None
}

/// Whether some argument is `flag`.
fn has_arg(args: &[String], flag: &str) -> (r: bool)
    ensures
        r == views(args@).contains(flag@),
{
    let n = args.len();
    for i in 0..n
        invariant
            n == args@.len(),
            forall|j: int| 0 <= j < i ==> views(args@)[j] != flag@,
    {
        if str_eq(args[i].as_str(), flag) {
            assert(views(args@)[i as int] == flag@);
            return true;
        }
    }
    false
}


/// What the command line asks for.
pub fn parse_command(args: &[String]) -> (c: CliCommand)
    ensures
        args@.len() < 2 ==> c is Usage,
        args@.len() >= 2 ==> {
            let cmd = args@[1]@;
            if cmd == "init"@ {
                c is Init
            } else if cmd == "index"@ {
                c == CliCommand::Index { advanced: views(args@).contains("--analysis-mode"@) }
            } else if cmd == "watch"@ {
                c is Watch
            } else if cmd == "smoke"@ {
                c is Smoke
            } else if cmd == "serve"@ {
                c is Serve
            } else {
                c matches CliCommand::Unknown(u) && u@ == cmd
            }
        },
{
    if args.len() < 2 {
        return CliCommand::Usage;
    }
    let cmd = args[1].as_str();
    if str_eq(cmd, "init") {
        CliCommand::Init
    } else if str_eq(cmd, "index") {
        CliCommand::Index { advanced: has_arg(args, "--analysis-mode") }
    } else if str_eq(cmd, "watch") {
        CliCommand::Watch
    } else if str_eq(cmd, "smoke") {
        CliCommand::Smoke
    } else if str_eq(cmd, "serve") {
        CliCommand::Serve
    } else {
        CliCommand::Unknown(args[1].clone())
    }
}

/// The usage text, one line per entry.
pub fn usage_lines() -> (lines: Vec<String>)
    ensures
        views(lines@) == seq![
            "codebase-context-graph"@,
            "  init [--project-root <path>]"@,
            "  index [--project-root <path>] [--analysis-mode standard|advanced]"@,
            "  watch [--project-root <path>]"@,
            "  smoke [--project-root <path>]"@,
            "  serve [--project-root <path>]"@,
            "No Node.js required."@,
        ],
{
    let v = vec![
        String::from_str("codebase-context-graph"),
        String::from_str("  init [--project-root <path>]"),
        String::from_str("  index [--project-root <path>] [--analysis-mode standard|advanced]"),
        String::from_str("  watch [--project-root <path>]"),
        String::from_str("  smoke [--project-root <path>]"),
        String::from_str("  serve [--project-root <path>]"),
        String::from_str("No Node.js required."),
    ];
    assert(views(v@) =~= seq![
        "codebase-context-graph"@,
        "  init [--project-root <path>]"@,
        "  index [--project-root <path>] [--analysis-mode standard|advanced]"@,
        "  watch [--project-root <path>]"@,
        "  smoke [--project-root <path>]"@,
        "  serve [--project-root <path>]"@,
        "No Node.js required."@,
    ]);
    v
}

} // verus!
