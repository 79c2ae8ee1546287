//! Tool handlers that answer questions about an indexed project.

use vstd::prelude::*;
use vstd::string::*;
use crate::config::views;
use crate::serialization::{row_views, spec_toon, str_views, to_toon};
use crate::text::{i64_to_decimal, signed_decimal};

verus! {

broadcast use vstd::string::group_string_axioms;

/// Handlers bound to one project and its database.
pub struct ToolHandlers {
    project_root: std::path::PathBuf,
    db_path: std::path::PathBuf,
}

/// Handlers for the project at `project_root` whose database is `db_path`.
pub fn create_tool_handlers(project_root: std::path::PathBuf, db_path: std::path::PathBuf) -> (h: ToolHandlers)
    ensures
        h.root() == project_root,
        h.database() == db_path,
{
    ToolHandlers { project_root, db_path }
}

impl ToolHandlers {
    pub closed spec fn root(self) -> std::path::PathBuf {
        self.project_root
    }

    pub closed spec fn database(self) -> std::path::PathBuf {
        self.db_path
    }

    /// The project these handlers answer for.
    pub fn project_root(&self) -> (p: &std::path::PathBuf)
        ensures
            *p == self.root(),
    {
        &self.project_root
    }

    /// The database these handlers read.
    pub fn db_path(&self) -> (p: &std::path::PathBuf)
        ensures
            *p == self.database(),
    {
        &self.db_path
    }

    /// The overview table for the counts read from the database: files,
    /// functions and classes.
    pub fn get_overview(&self, files: i64, functions: i64, classes: i64) -> (text: String)
        ensures
            text@ == spec_toon(
                "overview"@,
                seq!["metric"@, "value"@],
                seq![
                    seq!["files"@, signed_decimal(files as int)],
                    seq!["functions"@, signed_decimal(functions as int)],
                    seq!["classes"@, signed_decimal(classes as int)],
                ],
            ),
    {
        let r1 = vec![String::from_str("files"), i64_to_decimal(files)];
        let r2 = vec![String::from_str("functions"), i64_to_decimal(functions)];
        let r3 = vec![String::from_str("classes"), i64_to_decimal(classes)];
        assert(views(r1@) =~= seq!["files"@, signed_decimal(files as int)]);
        assert(views(r2@) =~= seq!["functions"@, signed_decimal(functions as int)]);
        assert(views(r3@) =~= seq!["classes"@, signed_decimal(classes as int)]);
        let rows = vec![r1, r2, r3];
        let headers = ["metric", "value"];
        assert(str_views(headers@) =~= seq!["metric"@, "value"@]);
        assert(row_views(rows@) =~= seq![
            seq!["files"@, signed_decimal(files as int)],
            seq!["functions"@, signed_decimal(functions as int)],
            seq!["classes"@, signed_decimal(classes as int)],
        ]);
        to_toon("overview", &headers, rows.as_slice())
    }

    /// Releases the handlers; nothing is held open between calls.
    pub fn close(&self) {
    }
}

} // verus!
